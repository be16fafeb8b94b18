//! XCDR2 encodings of the primitive types: integers are little-endian at
//! their natural alignment capped at 4; `bool` is one byte with no alignment.

use vstd::prelude::*;
use crate::cdr::{
    CdrDeserialize, CdrDeserializer, CdrError, CdrRoundTrip, CdrSerialize, CdrSerializer,
    lemma_prim_bytes_nonempty, lemma_prim_read_extends, lemma_prim_roundtrip, lemma_read_span_extends, prim_bytes, prim_read, read_span,
};
use crate::le::{from_twos_complement, lemma_pow256_values, pow256, twos_complement};

verus! {

impl CdrSerialize for u8 {
    open spec fn cdr_bytes(&self, offset: nat) -> Seq<u8> {
        prim_bytes(offset, 1, *self as nat)
    }

    fn serialize(&self, s: &mut CdrSerializer) {
        s.write_le(*self as u64, 1);
    }
}

impl CdrDeserialize for u8 {
    open spec fn cdr_read(body: Seq<u8>, offset: nat) -> (Result<u8, CdrError>, nat) {
        let (r, q) = prim_read(body, offset, 1);
        (
            match r {
                Ok(v) => Ok(v as u8),
                Err(e) => Err(e),
            },
            q,
        )
    }

    fn deserialize(d: &mut CdrDeserializer<'_>) -> (r: Result<u8, CdrError>) {
        proof {
            lemma_pow256_values();
        }
        let v = d.read_le(1)?;
        Ok(v as u8)
    }

    open spec fn cdr_nonempty() -> bool {
        true
    }

    fn is_cdr_nonempty() -> (b: bool) {
        true
    }

    proof fn lemma_cdr_read_extends(body: Seq<u8>, offset: nat, ext: Seq<u8>) {
        lemma_prim_read_extends(body, offset, 1, ext);
    }
}

impl CdrRoundTrip for u8 {
    open spec fn cdr_encodable(&self) -> bool {
        true
    }

    proof fn lemma_cdr_bytes_nonempty(&self, offset: nat) {
        lemma_prim_bytes_nonempty(offset, 1, *self as nat);
    }

    proof fn lemma_cdr_roundtrip(&self, prefix: Seq<u8>, rest: Seq<u8>) {
        lemma_pow256_values();
        lemma_prim_roundtrip(prefix, rest, 1, *self as nat);
    }
}

impl CdrSerialize for u16 {
    open spec fn cdr_bytes(&self, offset: nat) -> Seq<u8> {
        prim_bytes(offset, 2, *self as nat)
    }

    fn serialize(&self, s: &mut CdrSerializer) {
        s.write_le(*self as u64, 2);
    }
}

impl CdrDeserialize for u16 {
    open spec fn cdr_read(body: Seq<u8>, offset: nat) -> (Result<u16, CdrError>, nat) {
        let (r, q) = prim_read(body, offset, 2);
        (
            match r {
                Ok(v) => Ok(v as u16),
                Err(e) => Err(e),
            },
            q,
        )
    }

    fn deserialize(d: &mut CdrDeserializer<'_>) -> (r: Result<u16, CdrError>) {
        proof {
            lemma_pow256_values();
        }
        let v = d.read_le(2)?;
        Ok(v as u16)
    }

    open spec fn cdr_nonempty() -> bool {
        true
    }

    fn is_cdr_nonempty() -> (b: bool) {
        true
    }

    proof fn lemma_cdr_read_extends(body: Seq<u8>, offset: nat, ext: Seq<u8>) {
        lemma_prim_read_extends(body, offset, 2, ext);
    }
}

impl CdrRoundTrip for u16 {
    open spec fn cdr_encodable(&self) -> bool {
        true
    }

    proof fn lemma_cdr_bytes_nonempty(&self, offset: nat) {
        lemma_prim_bytes_nonempty(offset, 2, *self as nat);
    }

    proof fn lemma_cdr_roundtrip(&self, prefix: Seq<u8>, rest: Seq<u8>) {
        lemma_pow256_values();
        lemma_prim_roundtrip(prefix, rest, 2, *self as nat);
    }
}

impl CdrSerialize for u32 {
    open spec fn cdr_bytes(&self, offset: nat) -> Seq<u8> {
        prim_bytes(offset, 4, *self as nat)
    }

    fn serialize(&self, s: &mut CdrSerializer) {
        s.write_le(*self as u64, 4);
    }
}

impl CdrDeserialize for u32 {
    open spec fn cdr_read(body: Seq<u8>, offset: nat) -> (Result<u32, CdrError>, nat) {
        let (r, q) = prim_read(body, offset, 4);
        (
            match r {
                Ok(v) => Ok(v as u32),
                Err(e) => Err(e),
            },
            q,
        )
    }

    fn deserialize(d: &mut CdrDeserializer<'_>) -> (r: Result<u32, CdrError>) {
        proof {
            lemma_pow256_values();
        }
        let v = d.read_le(4)?;
        Ok(v as u32)
    }

    open spec fn cdr_nonempty() -> bool {
        true
    }

    fn is_cdr_nonempty() -> (b: bool) {
        true
    }

    proof fn lemma_cdr_read_extends(body: Seq<u8>, offset: nat, ext: Seq<u8>) {
        lemma_prim_read_extends(body, offset, 4, ext);
    }
}

impl CdrRoundTrip for u32 {
    open spec fn cdr_encodable(&self) -> bool {
        true
    }

    proof fn lemma_cdr_bytes_nonempty(&self, offset: nat) {
        lemma_prim_bytes_nonempty(offset, 4, *self as nat);
    }

    proof fn lemma_cdr_roundtrip(&self, prefix: Seq<u8>, rest: Seq<u8>) {
        lemma_pow256_values();
        lemma_prim_roundtrip(prefix, rest, 4, *self as nat);
    }
}

impl CdrSerialize for u64 {
    open spec fn cdr_bytes(&self, offset: nat) -> Seq<u8> {
        prim_bytes(offset, 8, *self as nat)
    }

    fn serialize(&self, s: &mut CdrSerializer) {
        s.write_le(*self as u64, 8);
    }
}

impl CdrDeserialize for u64 {
    open spec fn cdr_read(body: Seq<u8>, offset: nat) -> (Result<u64, CdrError>, nat) {
        let (r, q) = prim_read(body, offset, 8);
        (
            match r {
                Ok(v) => Ok(v as u64),
                Err(e) => Err(e),
            },
            q,
        )
    }

    fn deserialize(d: &mut CdrDeserializer<'_>) -> (r: Result<u64, CdrError>) {
        proof {
            lemma_pow256_values();
        }
        let v = d.read_le(8)?;
        Ok(v as u64)
    }

    open spec fn cdr_nonempty() -> bool {
        true
    }

    fn is_cdr_nonempty() -> (b: bool) {
        true
    }

    proof fn lemma_cdr_read_extends(body: Seq<u8>, offset: nat, ext: Seq<u8>) {
        lemma_prim_read_extends(body, offset, 8, ext);
    }
}

impl CdrRoundTrip for u64 {
    open spec fn cdr_encodable(&self) -> bool {
        true
    }

    proof fn lemma_cdr_bytes_nonempty(&self, offset: nat) {
        lemma_prim_bytes_nonempty(offset, 8, *self as nat);
    }

    proof fn lemma_cdr_roundtrip(&self, prefix: Seq<u8>, rest: Seq<u8>) {
        lemma_pow256_values();
        lemma_prim_roundtrip(prefix, rest, 8, *self as nat);
    }
}

impl CdrSerialize for i8 {
    open spec fn cdr_bytes(&self, offset: nat) -> Seq<u8> {
        prim_bytes(offset, 1, twos_complement(*self as int, 1))
    }

    fn serialize(&self, s: &mut CdrSerializer) {
        proof {
            lemma_pow256_values();
        }
        let u: u64 = if *self < 0 {
            (*self as i16 + 0x100) as u64
        } else {
            *self as u64
        };
        s.write_le(u, 1);
    }
}

impl CdrDeserialize for i8 {
    open spec fn cdr_read(body: Seq<u8>, offset: nat) -> (Result<i8, CdrError>, nat) {
        let (r, q) = prim_read(body, offset, 1);
        (
            match r {
                Ok(v) => Ok(from_twos_complement(v, 1) as i8),
                Err(e) => Err(e),
            },
            q,
        )
    }

    fn deserialize(d: &mut CdrDeserializer<'_>) -> (r: Result<i8, CdrError>) {
        proof {
            lemma_pow256_values();
        }
        let v = d.read_le(1)?;
        if v >= 0x80 {
            Ok((v as i16 - 0x100) as i8)
        } else {
            Ok(v as i8)
        }
    }

    open spec fn cdr_nonempty() -> bool {
        true
    }

    fn is_cdr_nonempty() -> (b: bool) {
        true
    }

    proof fn lemma_cdr_read_extends(body: Seq<u8>, offset: nat, ext: Seq<u8>) {
        lemma_prim_read_extends(body, offset, 1, ext);
    }
}

impl CdrRoundTrip for i8 {
    open spec fn cdr_encodable(&self) -> bool {
        true
    }

    proof fn lemma_cdr_bytes_nonempty(&self, offset: nat) {
        lemma_prim_bytes_nonempty(offset, 1, twos_complement(*self as int, 1));
    }

    proof fn lemma_cdr_roundtrip(&self, prefix: Seq<u8>, rest: Seq<u8>) {
        lemma_pow256_values();
        lemma_prim_roundtrip(prefix, rest, 1, twos_complement(*self as int, 1));
    }
}

impl CdrSerialize for i16 {
    open spec fn cdr_bytes(&self, offset: nat) -> Seq<u8> {
        prim_bytes(offset, 2, twos_complement(*self as int, 2))
    }

    fn serialize(&self, s: &mut CdrSerializer) {
        proof {
            lemma_pow256_values();
        }
        let u: u64 = if *self < 0 {
            (*self as i32 + 0x1_0000) as u64
        } else {
            *self as u64
        };
        s.write_le(u, 2);
    }
}

impl CdrDeserialize for i16 {
    open spec fn cdr_read(body: Seq<u8>, offset: nat) -> (Result<i16, CdrError>, nat) {
        let (r, q) = prim_read(body, offset, 2);
        (
            match r {
                Ok(v) => Ok(from_twos_complement(v, 2) as i16),
                Err(e) => Err(e),
            },
            q,
        )
    }

    fn deserialize(d: &mut CdrDeserializer<'_>) -> (r: Result<i16, CdrError>) {
        proof {
            lemma_pow256_values();
        }
        let v = d.read_le(2)?;
        if v >= 0x8000 {
            Ok((v as i32 - 0x1_0000) as i16)
        } else {
            Ok(v as i16)
        }
    }

    open spec fn cdr_nonempty() -> bool {
        true
    }

    fn is_cdr_nonempty() -> (b: bool) {
        true
    }

    proof fn lemma_cdr_read_extends(body: Seq<u8>, offset: nat, ext: Seq<u8>) {
        lemma_prim_read_extends(body, offset, 2, ext);
    }
}

impl CdrRoundTrip for i16 {
    open spec fn cdr_encodable(&self) -> bool {
        true
    }

    proof fn lemma_cdr_bytes_nonempty(&self, offset: nat) {
        lemma_prim_bytes_nonempty(offset, 2, twos_complement(*self as int, 2));
    }

    proof fn lemma_cdr_roundtrip(&self, prefix: Seq<u8>, rest: Seq<u8>) {
        lemma_pow256_values();
        lemma_prim_roundtrip(prefix, rest, 2, twos_complement(*self as int, 2));
    }
}

impl CdrSerialize for i32 {
    open spec fn cdr_bytes(&self, offset: nat) -> Seq<u8> {
        prim_bytes(offset, 4, twos_complement(*self as int, 4))
    }

    fn serialize(&self, s: &mut CdrSerializer) {
        proof {
            lemma_pow256_values();
        }
        let u: u64 = if *self < 0 {
            (*self as i64 + 0x1_0000_0000) as u64
        } else {
            *self as u64
        };
        s.write_le(u, 4);
    }
}

impl CdrDeserialize for i32 {
    open spec fn cdr_read(body: Seq<u8>, offset: nat) -> (Result<i32, CdrError>, nat) {
        let (r, q) = prim_read(body, offset, 4);
        (
            match r {
                Ok(v) => Ok(from_twos_complement(v, 4) as i32),
                Err(e) => Err(e),
            },
            q,
        )
    }

    fn deserialize(d: &mut CdrDeserializer<'_>) -> (r: Result<i32, CdrError>) {
        proof {
            lemma_pow256_values();
        }
        let v = d.read_le(4)?;
        if v >= 0x8000_0000 {
            Ok((v as i64 - 0x1_0000_0000) as i32)
        } else {
            Ok(v as i32)
        }
    }

    open spec fn cdr_nonempty() -> bool {
        true
    }

    fn is_cdr_nonempty() -> (b: bool) {
        true
    }

    proof fn lemma_cdr_read_extends(body: Seq<u8>, offset: nat, ext: Seq<u8>) {
        lemma_prim_read_extends(body, offset, 4, ext);
    }
}

impl CdrRoundTrip for i32 {
    open spec fn cdr_encodable(&self) -> bool {
        true
    }

    proof fn lemma_cdr_bytes_nonempty(&self, offset: nat) {
        lemma_prim_bytes_nonempty(offset, 4, twos_complement(*self as int, 4));
    }

    proof fn lemma_cdr_roundtrip(&self, prefix: Seq<u8>, rest: Seq<u8>) {
        lemma_pow256_values();
        lemma_prim_roundtrip(prefix, rest, 4, twos_complement(*self as int, 4));
    }
}

impl CdrSerialize for i64 {
    open spec fn cdr_bytes(&self, offset: nat) -> Seq<u8> {
        prim_bytes(offset, 8, twos_complement(*self as int, 8))
    }

    fn serialize(&self, s: &mut CdrSerializer) {
        proof {
            lemma_pow256_values();
        }
        let u: u64 = if *self < 0 {
            (*self as i128 + 0x1_0000_0000_0000_0000) as u64
        } else {
            *self as u64
        };
        s.write_le(u, 8);
    }
}

impl CdrDeserialize for i64 {
    open spec fn cdr_read(body: Seq<u8>, offset: nat) -> (Result<i64, CdrError>, nat) {
        let (r, q) = prim_read(body, offset, 8);
        (
            match r {
                Ok(v) => Ok(from_twos_complement(v, 8) as i64),
                Err(e) => Err(e),
            },
            q,
        )
    }

    fn deserialize(d: &mut CdrDeserializer<'_>) -> (r: Result<i64, CdrError>) {
        proof {
            lemma_pow256_values();
        }
        let v = d.read_le(8)?;
        if v >= 0x8000_0000_0000_0000 {
            Ok((v as i128 - 0x1_0000_0000_0000_0000) as i64)
        } else {
            Ok(v as i64)
        }
    }

    open spec fn cdr_nonempty() -> bool {
        true
    }

    fn is_cdr_nonempty() -> (b: bool) {
        true
    }

    proof fn lemma_cdr_read_extends(body: Seq<u8>, offset: nat, ext: Seq<u8>) {
        lemma_prim_read_extends(body, offset, 8, ext);
    }
}

impl CdrRoundTrip for i64 {
    open spec fn cdr_encodable(&self) -> bool {
        true
    }

    proof fn lemma_cdr_bytes_nonempty(&self, offset: nat) {
        lemma_prim_bytes_nonempty(offset, 8, twos_complement(*self as int, 8));
    }

    proof fn lemma_cdr_roundtrip(&self, prefix: Seq<u8>, rest: Seq<u8>) {
        lemma_pow256_values();
        lemma_prim_roundtrip(prefix, rest, 8, twos_complement(*self as int, 8));
    }
}

impl CdrSerialize for bool {
    open spec fn cdr_bytes(&self, offset: nat) -> Seq<u8> {
        seq![if *self { 1u8 } else { 0u8 }]
    }

    fn serialize(&self, s: &mut CdrSerializer) {
        let b: u8 = if *self {
            1
        } else {
            0
        };
        s.write_bytes(&[b]);
    }
}

impl CdrDeserialize for bool {
    open spec fn cdr_read(body: Seq<u8>, offset: nat) -> (Result<bool, CdrError>, nat) {
        let (r, q) = read_span(body, offset, 1);
        (
            match r {
                Ok(b) => Ok(b[0] != 0),
                Err(e) => Err(e),
            },
            q,
        )
    }

    fn deserialize(d: &mut CdrDeserializer<'_>) -> (r: Result<bool, CdrError>) {
        let b = d.read_bytes(1)?;
        Ok(b[0] != 0)
    }

    open spec fn cdr_nonempty() -> bool {
        true
    }

    fn is_cdr_nonempty() -> (b: bool) {
        true
    }

    proof fn lemma_cdr_read_extends(body: Seq<u8>, offset: nat, ext: Seq<u8>) {
        lemma_read_span_extends(body, offset, 1, ext);
    }
}

impl CdrRoundTrip for bool {
    open spec fn cdr_encodable(&self) -> bool {
        true
    }

    proof fn lemma_cdr_bytes_nonempty(&self, offset: nat) {
    }

    proof fn lemma_cdr_roundtrip(&self, prefix: Seq<u8>, rest: Seq<u8>) {
        let buf = prefix + self.cdr_bytes(prefix.len()) + rest;
        assert(buf.subrange(prefix.len() as int, prefix.len() + 1int) =~= self.cdr_bytes(
            prefix.len(),
        ));
    }
}

} // verus!
