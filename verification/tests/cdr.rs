//! The XCDR2 encoder and decoder on primitives, strings and sequences.

use unitree_sdk::cdr::ENCAPSULATION_HEADER;
use unitree_sdk::{CdrDeserialize, CdrDeserializer, CdrError, CdrSerialize, CdrSerializer};

fn encode<T: CdrSerialize>(v: &T) -> Vec<u8> {
    let mut s = CdrSerializer::new();
    v.serialize(&mut s);
    s.into_body()
}

fn decode<T: CdrDeserialize>(b: &[u8]) -> Result<T, CdrError> {
    let mut d = CdrDeserializer::new(b);
    T::deserialize(&mut d)
}

#[test]
fn serializer_basics() {
    let mut s = CdrSerializer::new();
    assert!(s.is_empty());
    s.write_bytes(&[9]);
    assert_eq!(s.len(), 1);
    s.align(8); // 8-byte primitives align to 4
    assert_eq!(s.len(), 4);
    s.align(2);
    assert_eq!(s.len(), 4);
    s.write_bytes(&[1, 2, 3]);
    s.align(2);
    assert_eq!(s.clone().into_body(), vec![9, 0, 0, 0, 1, 2, 3, 0]);
    assert_eq!(s.into_payload(), vec![0, 7, 0, 0, 9, 0, 0, 0, 1, 2, 3, 0]);
    assert_eq!(ENCAPSULATION_HEADER, [0x00, 0x07, 0x00, 0x00]);
}

#[test]
fn integers_are_little_endian_and_aligned() {
    let mut s = CdrSerializer::new();
    1u8.serialize(&mut s);
    0x0203u16.serialize(&mut s);
    (-2i32).serialize(&mut s);
    0x0102_0304_0506_0708u64.serialize(&mut s);
    (-1i8).serialize(&mut s);
    (-300i16).serialize(&mut s);
    i64::MIN.serialize(&mut s);
    let body = s.into_body();
    assert_eq!(
        body,
        vec![
            1, 0, 3, 2, // u8, pad, u16
            0xFE, 0xFF, 0xFF, 0xFF, // i32 -2
            8, 7, 6, 5, 4, 3, 2, 1, // u64 aligned to 4 only
            0xFF, 0, 0xD4, 0xFE, // i8 -1, pad, i16 -300
            0, 0, 0, 0, 0, 0, 0, 0x80, // i64::MIN
        ]
    );
    let mut d = CdrDeserializer::new(&body);
    assert_eq!(u8::deserialize(&mut d), Ok(1));
    assert_eq!(u16::deserialize(&mut d), Ok(0x0203));
    assert_eq!(i32::deserialize(&mut d), Ok(-2));
    assert_eq!(u64::deserialize(&mut d), Ok(0x0102_0304_0506_0708));
    assert_eq!(i8::deserialize(&mut d), Ok(-1));
    assert_eq!(i16::deserialize(&mut d), Ok(-300));
    assert_eq!(i64::deserialize(&mut d), Ok(i64::MIN));
    assert_eq!(d.position(), body.len());
    assert_eq!(
        u32::deserialize(&mut d),
        Err(CdrError::Eof { offset: 28, needed: 4 })
    );
}

#[test]
fn bool_has_no_alignment() {
    let body = encode(&(7u8, (true, 0x0506u16)));
    assert_eq!(body, vec![7, 1, 6, 5]);
    assert_eq!(decode::<(u8, (bool, u16))>(&body), Ok((7, (true, 0x0506))));
    assert_eq!(decode::<bool>(&[2]), Ok(true));
    assert_eq!(decode::<bool>(&[0]), Ok(false));
}

#[test]
fn strings_carry_length_and_nul() {
    let body = encode(&"hi".to_string());
    assert_eq!(body, vec![3, 0, 0, 0, b'h', b'i', 0]);
    assert_eq!(decode::<String>(&body), Ok("hi".to_string()));
    assert_eq!(encode(&String::new()), vec![1, 0, 0, 0, 0]);
    // a zero length is the empty string
    assert_eq!(decode::<String>(&[0, 0, 0, 0]), Ok(String::new()));
    // no trailing NUL: all bytes kept
    assert_eq!(decode::<String>(&[2, 0, 0, 0, b'o', b'k']), Ok("ok".to_string()));
    // multi-byte UTF-8 round trip
    let s = "héllo✓".to_string();
    assert_eq!(decode::<String>(&encode(&s)), Ok(s));
    // invalid UTF-8
    assert_eq!(decode::<String>(&[2, 0, 0, 0, 0xFF, 0]), Err(CdrError::Utf8));
    // declared length beyond the buffer
    assert_eq!(
        decode::<String>(&[9, 0, 0, 0, b'a']),
        Err(CdrError::LengthOverflow { offset: 4, len: 9 })
    );
    assert_eq!(
        decode::<String>(&[0x0A, 0, 0, 0, b'h', b'i', 0]),
        Err(CdrError::LengthOverflow { offset: 4, len: 10 })
    );
    // a length that exactly fills the buffer is fine
    assert_eq!(decode::<String>(&[3, 0, 0, 0, b'h', b'i', 0]), Ok("hi".to_string()));
}

#[test]
fn sequences_and_arrays() {
    let v: Vec<u16> = vec![1, 2, 3];
    let body = encode(&v);
    assert_eq!(body, vec![3, 0, 0, 0, 1, 0, 2, 0, 3, 0]);
    assert_eq!(decode::<Vec<u16>>(&body), Ok(v));
    let strings = vec!["a".to_string(), String::new(), "bc".to_string()];
    assert_eq!(decode::<Vec<String>>(&encode(&strings)), Ok(strings));
    let a: [u8; 3] = [4, 5, 6];
    assert_eq!(encode(&a), vec![4, 5, 6]);
    assert_eq!(decode::<[u8; 3]>(&[4, 5, 6]), Ok(a));
    // a sequence whose elements run past the end
    assert_eq!(
        decode::<Vec<u32>>(&[2, 0, 0, 0, 1, 0, 0, 0]),
        Err(CdrError::Eof { offset: 8, needed: 4 })
    );
    // an element count larger than the bytes left
    assert_eq!(
        decode::<Vec<u8>>(&[9, 0, 0, 0, 1]),
        Err(CdrError::LengthOverflow { offset: 4, len: 9 })
    );
    // elements that take no bytes are not held to the bytes left
    assert_eq!(decode::<Vec<[u8; 0]>>(&[3, 0, 0, 0]), Ok(vec![[0u8; 0]; 3]));
    assert!(!<[u8; 0]>::is_cdr_nonempty());
    assert!(u8::is_cdr_nonempty() && <[u16; 2]>::is_cdr_nonempty() && String::is_cdr_nonempty());
    assert!(<(u8, [u8; 0])>::is_cdr_nonempty());
}

#[test]
fn deserializer_payload_and_alignment() {
    assert_eq!(
        CdrDeserializer::from_payload(&[0, 7]).err(),
        Some(CdrError::Eof { offset: 2, needed: 2 })
    );
    assert_eq!(
        CdrDeserializer::from_payload(&[1, 7, 0, 0]).err(),
        Some(CdrError::BadEncapsulation([1, 7, 0, 0]))
    );
    // plain CDR_LE is accepted too
    let mut d = CdrDeserializer::from_payload(&[0, 1, 0, 0, 5, 0, 0, 0]).unwrap();
    assert_eq!(u32::deserialize(&mut d), Ok(5));
    // align stops at the end of the body
    let body = [1u8, 2];
    let mut d = CdrDeserializer::new(&body);
    d.read_bytes(1).unwrap();
    assert_eq!(d.remaining(), 1);
    d.align(4);
    assert_eq!(d.remaining(), 0);
    assert_eq!(d.position(), 2);
    assert_eq!(
        d.read_bytes(1).err(),
        Some(CdrError::Eof { offset: 2, needed: 1 })
    );
}
