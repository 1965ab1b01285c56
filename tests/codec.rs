use smip::codec::{FromPayload, ToPayload};
use smip::error::SmipError;

#[test]
fn u32_encodes_little_endian() {
    assert_eq!(5u32.to_payload().unwrap(), vec![5, 0, 0, 0]);
    assert_eq!(0x0403_0201u32.to_payload().unwrap(), vec![1, 2, 3, 4]);
}

#[test]
fn fixed_width_encodings() {
    assert_eq!(().to_payload().unwrap(), Vec::<u8>::new());
    assert_eq!(true.to_payload().unwrap(), vec![1]);
    assert_eq!(false.to_payload().unwrap(), vec![0]);
    assert_eq!(0xABu8.to_payload().unwrap(), vec![0xAB]);
    assert_eq!(0x0102u16.to_payload().unwrap(), vec![2, 1]);
    assert_eq!(
        0x0102_0304_0506_0708u64.to_payload().unwrap(),
        vec![8, 7, 6, 5, 4, 3, 2, 1]
    );
}

#[test]
fn string_encoding_has_length_prefix() {
    let bytes = String::from("Hello World").to_payload().unwrap();
    let mut expected = vec![11, 0, 0, 0, 0, 0, 0, 0];
    expected.extend_from_slice(b"Hello World");
    assert_eq!(bytes, expected);
}

#[test]
fn round_trip_every_type() {
    assert_eq!(u32::from_payload(&7u32.to_payload().unwrap()).unwrap(), 7);
    assert_eq!(u16::from_payload(&65535u16.to_payload().unwrap()).unwrap(), 65535);
    assert_eq!(u64::from_payload(&u64::MAX.to_payload().unwrap()).unwrap(), u64::MAX);
    assert_eq!(u8::from_payload(&200u8.to_payload().unwrap()).unwrap(), 200);
    assert!(bool::from_payload(&true.to_payload().unwrap()).unwrap());
    assert!(!bool::from_payload(&false.to_payload().unwrap()).unwrap());
    assert_eq!(<()>::from_payload(&().to_payload().unwrap()).unwrap(), ());
    let s = String::from("grüße, 世界");
    assert_eq!(String::from_payload(&s.to_payload().unwrap()).unwrap(), s);
    let empty = String::new();
    assert_eq!(String::from_payload(&empty.to_payload().unwrap()).unwrap(), empty);
}

#[test]
fn trailing_bytes_are_ignored() {
    let mut bytes = 42u32.to_payload().unwrap();
    bytes.extend_from_slice(&[9, 9, 9]);
    assert_eq!(u32::from_payload(&bytes).unwrap(), 42);
    let mut s = String::from("abc").to_payload().unwrap();
    s.extend_from_slice(&[0xFF, 0xFF]);
    assert_eq!(String::from_payload(&s).unwrap(), "abc");
    assert_eq!(<()>::from_payload(&[1, 2, 3]).unwrap(), ());
}

#[test]
fn truncated_input_fails() {
    assert!(matches!(u32::from_payload(&[1, 2, 3]), Err(SmipError::FromPayloadError(_))));
    assert!(matches!(u16::from_payload(&[1]), Err(SmipError::FromPayloadError(_))));
    assert!(matches!(u64::from_payload(&[0; 7]), Err(SmipError::FromPayloadError(_))));
    assert!(matches!(u8::from_payload(&[]), Err(SmipError::FromPayloadError(_))));
    assert!(matches!(bool::from_payload(&[]), Err(SmipError::FromPayloadError(_))));
    assert!(matches!(String::from_payload(&[3, 0, 0, 0]), Err(SmipError::FromPayloadError(_))));
    assert!(matches!(
        String::from_payload(&[3, 0, 0, 0, 0, 0, 0, 0, b'a', b'b']),
        Err(SmipError::FromPayloadError(_))
    ));
}

#[test]
fn malformed_input_fails() {
    assert!(matches!(bool::from_payload(&[2]), Err(SmipError::FromPayloadError(_))));
    assert!(matches!(
        String::from_payload(&[2, 0, 0, 0, 0, 0, 0, 0, 0xC3, 0x28]),
        Err(SmipError::FromPayloadError(_))
    ));
}

#[test]
fn signed_integers_use_twos_complement() {
    assert_eq!((-1i32).to_payload().unwrap(), vec![0xFF, 0xFF, 0xFF, 0xFF]);
    assert_eq!((-2i8).to_payload().unwrap(), vec![0xFE]);
    assert_eq!((-2i16).to_payload().unwrap(), vec![0xFE, 0xFF]);
    assert_eq!(1i64.to_payload().unwrap(), vec![1, 0, 0, 0, 0, 0, 0, 0]);
    assert_eq!(i32::from_payload(&[0xFB, 0xFF, 0xFF, 0xFF, 7]).unwrap(), -5);
    assert_eq!(i8::from_payload(&(-128i8).to_payload().unwrap()).unwrap(), -128);
    assert_eq!(i16::from_payload(&i16::MIN.to_payload().unwrap()).unwrap(), i16::MIN);
    assert_eq!(i64::from_payload(&i64::MIN.to_payload().unwrap()).unwrap(), i64::MIN);
    assert!(matches!(i32::from_payload(&[1, 2, 3]), Err(SmipError::FromPayloadError(_))));
    assert!(matches!(i8::from_payload(&[]), Err(SmipError::FromPayloadError(_))));
    assert!(matches!(i16::from_payload(&[1]), Err(SmipError::FromPayloadError(_))));
    assert!(matches!(i64::from_payload(&[0; 7]), Err(SmipError::FromPayloadError(_))));
}
