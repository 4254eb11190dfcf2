use bytes::{BufMut, BytesMut};
use kafka_broker::protocol::encoding::WireFormat;
use kafka_broker::protocol::errors::ProtocolError;

#[test]
fn test_decode_nullable_string_null() {
    let mut buffer = BytesMut::new();
    buffer.put_i16(-1);

    let result = WireFormat::decode_nullable_string(&mut buffer).unwrap();
    assert_eq!(result, None);
}

#[test]
fn test_decode_nullable_string_empty() {
    let mut buffer = BytesMut::new();
    buffer.put_i16(0);

    let result = WireFormat::decode_nullable_string(&mut buffer).unwrap();
    assert_eq!(result, Some(String::new()));
}

#[test]
fn test_decode_nullable_string_valid() {
    let mut buffer = BytesMut::new();
    let test_string = "kafka-client";
    buffer.put_i16(test_string.len() as i16);
    buffer.put_slice(test_string.as_bytes());

    let result = WireFormat::decode_nullable_string(&mut buffer).unwrap();
    assert_eq!(result, Some(test_string.to_string()));
}

#[test]
fn test_encode_nullable_string_roundtrip() {
    let mut buffer = BytesMut::new();
    let test_string = "test-client";

    WireFormat::encode_nullable_string(&mut buffer, Some(test_string)).unwrap();
    let result = WireFormat::decode_nullable_string(&mut buffer).unwrap();

    assert_eq!(result, Some(test_string.to_string()));
}

#[test]
fn test_safe_decode_insufficient_bytes() {
    let mut buffer = BytesMut::new();
    buffer.put_u8(0);

    let result = WireFormat::decode_i16(&mut buffer);
    assert!(matches!(
        result,
        Err(ProtocolError::InsufficientBytes { .. })
    ));
}

#[test]
fn test_peek_functions() {
    let mut buffer = BytesMut::new();
    buffer.put_i16(0x1234);
    buffer.put_i32(0x56789ABC);

    // Peeking does not consume.
    assert_eq!(WireFormat::peek_i16(&buffer).unwrap(), 0x1234);
    assert_eq!(buffer.len(), 6);

    assert_eq!(WireFormat::decode_i16(&mut buffer).unwrap(), 0x1234);
    assert_eq!(buffer.len(), 4);

    assert_eq!(WireFormat::peek_i32(&buffer).unwrap(), 0x56789ABC);
    assert_eq!(WireFormat::decode_i32(&mut buffer).unwrap(), 0x56789ABC);
    assert_eq!(buffer.len(), 0);
}

#[test]
fn decode_i16_is_big_endian_and_signed() {
    let mut buffer = BytesMut::from(&[0x12u8, 0x34, 0xFF, 0xFE, 0x80, 0x00, 0x7F, 0xFF][..]);
    assert_eq!(WireFormat::decode_i16(&mut buffer).unwrap(), 0x1234);
    assert_eq!(WireFormat::decode_i16(&mut buffer).unwrap(), -2);
    assert_eq!(WireFormat::decode_i16(&mut buffer).unwrap(), i16::MIN);
    assert_eq!(WireFormat::decode_i16(&mut buffer).unwrap(), i16::MAX);
    assert_eq!(buffer.len(), 0);
}

#[test]
fn decode_i32_is_big_endian_and_signed() {
    let mut buffer = BytesMut::from(
        &[0x01u8, 0x02, 0x03, 0x04, 0xFF, 0xFF, 0xFF, 0xFF, 0x80, 0x00, 0x00, 0x00][..],
    );
    assert_eq!(WireFormat::decode_i32(&mut buffer).unwrap(), 0x01020304);
    assert_eq!(WireFormat::decode_i32(&mut buffer).unwrap(), -1);
    assert_eq!(WireFormat::decode_i32(&mut buffer).unwrap(), i32::MIN);
    assert_eq!(buffer.len(), 0);
}

#[test]
fn decode_u8_takes_one_byte() {
    let mut buffer = BytesMut::from(&[0xABu8, 0xCD][..]);
    assert_eq!(WireFormat::decode_u8(&mut buffer).unwrap(), 0xAB);
    assert_eq!(&buffer[..], &[0xCD]);
    assert_eq!(WireFormat::decode_u8(&mut buffer).unwrap(), 0xCD);
    assert!(matches!(
        WireFormat::decode_u8(&mut buffer),
        Err(ProtocolError::InsufficientBytes { expected: 1, actual: 0 })
    ));
}

#[test]
fn decode_i32_reports_what_is_missing() {
    let mut buffer = BytesMut::from(&[1u8, 2, 3][..]);
    assert!(matches!(
        WireFormat::decode_i32(&mut buffer),
        Err(ProtocolError::InsufficientBytes { expected: 4, actual: 3 })
    ));
    // Nothing was consumed.
    assert_eq!(&buffer[..], &[1, 2, 3]);
}

#[test]
fn peek_reports_what_is_missing() {
    let buffer = BytesMut::from(&[1u8][..]);
    assert!(matches!(
        WireFormat::peek_i16(&buffer),
        Err(ProtocolError::InsufficientBytes { expected: 2, actual: 1 })
    ));
    assert!(matches!(
        WireFormat::peek_i32(&buffer),
        Err(ProtocolError::InsufficientBytes { expected: 4, actual: 1 })
    ));
}

#[test]
fn peek_reads_negative_numbers() {
    let buffer = BytesMut::from(&[0xFFu8, 0xFF, 0xFF, 0x85][..]);
    assert_eq!(WireFormat::peek_i16(&buffer).unwrap(), -1);
    assert_eq!(WireFormat::peek_i32(&buffer).unwrap(), -123);
    assert_eq!(buffer.len(), 4);
}

#[test]
fn string_decoders_need_two_bytes() {
    for bytes in [&[][..], &[0u8][..]] {
        let mut buffer = BytesMut::from(bytes);
        match WireFormat::decode_string(&mut buffer) {
            Err(ProtocolError::InsufficientBytes { expected, actual }) => {
                assert_eq!(expected, 2);
                assert_eq!(actual, bytes.len());
            }
            other => panic!("unexpected result: {:?}", other),
        }
        assert_eq!(&buffer[..], bytes);

        match WireFormat::decode_nullable_string(&mut buffer) {
            Err(ProtocolError::InsufficientBytes { expected, actual }) => {
                assert_eq!(expected, 2);
                assert_eq!(actual, bytes.len());
            }
            other => panic!("unexpected result: {:?}", other),
        }
        assert_eq!(&buffer[..], bytes);
    }
}

#[test]
fn nullable_string_length_below_minus_one_is_invalid() {
    let mut buffer = BytesMut::new();
    buffer.put_i16(-2);
    buffer.put_slice(b"xy");
    assert!(matches!(
        WireFormat::decode_nullable_string(&mut buffer),
        Err(ProtocolError::InvalidLength { length: -2 })
    ));
    // The length field is gone, what followed it is not.
    assert_eq!(&buffer[..], b"xy");

    let mut buffer = BytesMut::new();
    buffer.put_i16(i16::MIN);
    assert!(matches!(
        WireFormat::decode_nullable_string(&mut buffer),
        Err(ProtocolError::InvalidLength { length: -32768 })
    ));
}

#[test]
fn nullable_string_absent_leaves_the_rest() {
    let mut buffer = BytesMut::new();
    buffer.put_i16(-1);
    buffer.put_slice(b"rest");
    assert_eq!(WireFormat::decode_nullable_string(&mut buffer).unwrap(), None);
    assert_eq!(&buffer[..], b"rest");
}

#[test]
fn nullable_string_reads_the_announced_bytes() {
    let mut buffer = BytesMut::new();
    buffer.put_i16(3);
    buffer.put_slice(b"abcdef");
    assert_eq!(
        WireFormat::decode_nullable_string(&mut buffer).unwrap(),
        Some("abc".to_string())
    );
    assert_eq!(&buffer[..], b"def");
}

#[test]
fn string_length_must_not_be_negative() {
    let mut buffer = BytesMut::new();
    buffer.put_i16(-1);
    assert!(matches!(
        WireFormat::decode_string(&mut buffer),
        Err(ProtocolError::InvalidLength { length: -1 })
    ));
    assert_eq!(buffer.len(), 0);
}

#[test]
fn string_needs_the_announced_bytes() {
    let mut buffer = BytesMut::new();
    buffer.put_i16(5);
    buffer.put_slice(b"abc");
    assert!(matches!(
        WireFormat::decode_string(&mut buffer),
        Err(ProtocolError::InsufficientBytes { expected: 5, actual: 3 })
    ));
    assert_eq!(&buffer[..], b"abc");

    let mut buffer = BytesMut::new();
    buffer.put_i16(5);
    buffer.put_slice(b"abc");
    assert!(matches!(
        WireFormat::decode_nullable_string(&mut buffer),
        Err(ProtocolError::InsufficientBytes { expected: 5, actual: 3 })
    ));
    assert_eq!(&buffer[..], b"abc");
}

#[test]
fn string_must_be_utf8() {
    let mut buffer = BytesMut::new();
    buffer.put_i16(2);
    buffer.put_slice(&[0xC3, 0x28, b'z']);
    assert!(matches!(
        WireFormat::decode_string(&mut buffer),
        Err(ProtocolError::InvalidUtf8(_))
    ));
    // The bytes of the string are gone.
    assert_eq!(&buffer[..], b"z");

    let mut buffer = BytesMut::new();
    buffer.put_i16(1);
    buffer.put_slice(&[0xFF]);
    assert!(matches!(
        WireFormat::decode_nullable_string(&mut buffer),
        Err(ProtocolError::InvalidUtf8(_))
    ));
    assert_eq!(buffer.len(), 0);
}

#[test]
fn string_decodes_multibyte_characters() {
    let text = "grüße, 世界";
    let mut buffer = BytesMut::new();
    buffer.put_i16(text.len() as i16);
    buffer.put_slice(text.as_bytes());
    buffer.put_u8(9);
    assert_eq!(WireFormat::decode_string(&mut buffer).unwrap(), text);
    assert_eq!(&buffer[..], &[9]);
}

#[test]
fn encode_string_writes_length_then_bytes() {
    let mut buffer = BytesMut::new();
    buffer.put_u8(7);
    WireFormat::encode_string(&mut buffer, "test").unwrap();
    assert_eq!(&buffer[..], &[7, 0x00, 0x04, b't', b'e', b's', b't']);

    let mut buffer = BytesMut::new();
    WireFormat::encode_string(&mut buffer, "").unwrap();
    assert_eq!(&buffer[..], &[0x00, 0x00]);
}

#[test]
fn encode_nullable_string_writes_minus_one_for_absent() {
    let mut buffer = BytesMut::new();
    WireFormat::encode_nullable_string(&mut buffer, None).unwrap();
    assert_eq!(&buffer[..], &[0xFF, 0xFF]);

    WireFormat::encode_nullable_string(&mut buffer, Some("ab")).unwrap();
    assert_eq!(&buffer[..], &[0xFF, 0xFF, 0x00, 0x02, b'a', b'b']);
}

#[test]
fn encode_string_counts_bytes_not_characters() {
    let mut buffer = BytesMut::new();
    WireFormat::encode_string(&mut buffer, "é").unwrap();
    assert_eq!(&buffer[..], &[0x00, 0x02, 0xC3, 0xA9]);
}

#[test]
fn encode_string_accepts_the_longest_string() {
    let text = "a".repeat(32767);
    let mut buffer = BytesMut::new();
    WireFormat::encode_string(&mut buffer, &text).unwrap();
    assert_eq!(buffer.len(), 32769);
    assert_eq!(&buffer[..2], &[0x7F, 0xFF]);
    assert_eq!(WireFormat::decode_string(&mut buffer).unwrap(), text);
    assert_eq!(buffer.len(), 0);
}

#[test]
fn encode_string_refuses_too_long_a_string_and_writes_nothing() {
    let text = "a".repeat(32768);
    let mut buffer = BytesMut::new();
    buffer.put_u8(1);
    assert!(matches!(
        WireFormat::encode_string(&mut buffer, &text),
        Err(ProtocolError::StringTooLong { length: 32768, max: 32767 })
    ));
    assert_eq!(&buffer[..], &[1]);

    assert!(matches!(
        WireFormat::encode_nullable_string(&mut buffer, Some(&text)),
        Err(ProtocolError::StringTooLong { length: 32768, max: 32767 })
    ));
    assert_eq!(&buffer[..], &[1]);
}

#[test]
fn nullable_string_roundtrip_absent_and_present() {
    let mut buffer = BytesMut::new();
    WireFormat::encode_nullable_string(&mut buffer, None).unwrap();
    WireFormat::encode_nullable_string(&mut buffer, Some("")).unwrap();
    WireFormat::encode_nullable_string(&mut buffer, Some("клиент")).unwrap();
    assert_eq!(WireFormat::decode_nullable_string(&mut buffer).unwrap(), None);
    assert_eq!(
        WireFormat::decode_nullable_string(&mut buffer).unwrap(),
        Some(String::new())
    );
    assert_eq!(
        WireFormat::decode_nullable_string(&mut buffer).unwrap(),
        Some("клиент".to_string())
    );
    assert_eq!(buffer.len(), 0);
}

#[test]
fn invalid_utf8_carries_the_decoder_s_words() {
    let bad = vec![b'a', 0xC3, 0x28];
    let expected = String::from_utf8(bad.clone()).unwrap_err().to_string();

    let mut buffer = BytesMut::new();
    buffer.put_i16(3);
    buffer.put_slice(&bad);
    match WireFormat::decode_string(&mut buffer) {
        Err(ProtocolError::InvalidUtf8(text)) => assert_eq!(text, expected),
        other => panic!("unexpected result: {:?}", other),
    }
}
