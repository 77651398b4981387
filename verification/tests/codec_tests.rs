//! Tests of the checksum and the envelope codec.

use aingle_wasm::compute_checksum;
use aingle_wasm::decode_envelope;
use aingle_wasm::decode_raw;
use aingle_wasm::encode_to_slice;
use aingle_wasm::encode_with_envelope;
use aingle_wasm::verify_checksum;
use aingle_wasm::Decoder;
use aingle_wasm::DeserializeError;
use aingle_wasm::Encoder;
use aingle_wasm::SerializeError;
use aingle_wasm::WasmError;
use aingle_wasm::EnvelopeHeader;
use aingle_wasm::HEADER_SIZE;

#[test]
fn test_checksum() {
    let data = b"hello world";
    let checksum = compute_checksum(data);

    assert!(verify_checksum(data, checksum));
    assert!(!verify_checksum(data, checksum + 1));
}

#[test]
fn test_empty_checksum() {
    let checksum = compute_checksum(&[]);
    assert!(verify_checksum(&[], checksum));
}

#[test]
fn test_checksum_known_values() {
    // IEEE CRC32 test vectors: an identity function would fail both.
    assert_eq!(compute_checksum(b"hello world"), 0x0d4a_1185);
    assert_eq!(compute_checksum(&[]), 0);
}

#[test]
fn test_decoder_basic() {
    let buf = [0x42, 0x34, 0x12, 0xEF, 0xBE, 0xAD, 0xDE];
    let mut dec = Decoder::new(&buf);

    assert_eq!(dec.read_u8().unwrap(), 0x42);
    assert_eq!(dec.read_u16().unwrap(), 0x1234);
    assert_eq!(dec.read_u32().unwrap(), 0xDEADBEEF);
    assert_eq!(dec.remaining(), 0);
}

#[test]
fn test_decoder_u64_and_eof() {
    let buf = [1, 0, 0, 0, 0, 0, 0, 0, 9];
    let mut dec = Decoder::new(&buf);
    assert_eq!(dec.read_u64().unwrap(), 1);
    assert_eq!(dec.remaining_slice(), &[9]);
    assert!(matches!(
        dec.read_u16(),
        Err(WasmError::Deserialize(DeserializeError::UnexpectedEof))
    ));
}

#[test]
fn test_encoder_basic() {
    let buf = vec![0u8; 32];
    let mut enc = Encoder::new(buf);

    enc.write_u8(0x42).unwrap();
    enc.write_u16(0x1234).unwrap();
    enc.write_u32(0xDEADBEEF).unwrap();

    let result = enc.finish();
    assert_eq!(result.len(), 7);
    assert_eq!(result[0], 0x42);
}

#[test]
fn test_encoder_u64_and_overflow() {
    let mut enc = Encoder::new(vec![0u8; 8]);
    enc.write_u64(0x0102_0304_0506_0708).unwrap();
    assert_eq!(enc.remaining(), 0);
    assert!(matches!(
        enc.write_u8(1),
        Err(WasmError::Serialize(SerializeError::BufferTooSmall { needed: 1, available: 0 }))
    ));
}

#[test]
fn test_typed_writer_overflow_payloads() {
    // Each typed writer names what it needed and what was available, and
    // leaves the encoder untouched.
    let mut enc = Encoder::new(vec![0u8; 3]);
    assert!(matches!(
        enc.write_u32(7),
        Err(WasmError::Serialize(SerializeError::BufferTooSmall { needed: 4, available: 3 }))
    ));
    assert!(matches!(
        enc.write_u64(7),
        Err(WasmError::Serialize(SerializeError::BufferTooSmall { needed: 8, available: 3 }))
    ));
    assert_eq!(enc.position(), 0);
    enc.write_u16(7).unwrap();
    assert!(matches!(
        enc.write_u16(7),
        Err(WasmError::Serialize(SerializeError::BufferTooSmall { needed: 2, available: 1 }))
    ));
    assert_eq!(enc.position(), 2);
}

#[test]
fn test_encode_with_envelope() {
    let payload = b"hello world";
    let mut output = vec![0u8; 64];

    let len = encode_with_envelope(payload, 0, &mut output).unwrap();
    assert_eq!(len, EnvelopeHeader::SIZE + payload.len());

    // Check magic bytes
    assert_eq!(output[0], 0x49); // 'I'
    assert_eq!(output[1], 0x41); // 'A'
}

#[test]
fn test_encode_exact_layout() {
    // Encode "hello world" with flags 0 into a 64-byte buffer: 23 bytes out,
    // magic little-endian, version 1, flags 0, length 11, CRC32, payload.
    let payload = b"hello world";
    let mut output = vec![0u8; 64];
    let len = encode_with_envelope(payload, 0, &mut output).unwrap();
    assert_eq!(len, 23);
    assert_eq!(&output[0..2], &[0x49, 0x41]);
    assert_eq!(output[2], 1);
    assert_eq!(output[3], 0);
    assert_eq!(&output[4..8], &(11u32).to_le_bytes());
    assert_eq!(&output[8..12], &0x0d4a_1185u32.to_le_bytes());
    assert_eq!(&output[12..23], payload);
}

#[test]
fn test_encode_zero_length_payload() {
    let mut output = vec![0u8; 16];
    let len = encode_with_envelope(&[], 0, &mut output).unwrap();
    assert_eq!(len, 12);
    let decoded = decode_envelope(&output[..len]).unwrap();
    assert!(decoded.payload.is_empty());
}

#[test]
fn test_encode_buffer_too_small() {
    // N + 1 bytes into an N-byte buffer.
    let payload = [7u8; 5];
    let mut output = vec![0u8; 16]; // needs 17
    let r = encode_with_envelope(&payload, 0, &mut output);
    assert!(matches!(
        r,
        Err(WasmError::Serialize(SerializeError::BufferTooSmall { needed: 17, available: 16 }))
    ));
}

#[test]
fn test_encode_to_slice_reports_region() {
    let mut buffer = vec![0u8; 32];
    let slice = encode_to_slice(b"abc", &mut buffer, 2048).unwrap();
    assert_eq!(slice.ptr, 2048);
    assert_eq!(slice.len, 15);
}

#[test]
fn test_roundtrip() {
    let payload = b"test payload data";
    let mut buffer = vec![0u8; 128];

    let len = encode_with_envelope(payload, 0, &mut buffer).unwrap();
    let decoded = decode_envelope(&buffer[..len]).unwrap();

    assert_eq!(decoded.payload, payload);
    assert!(!decoded.header.is_error());
}

#[test]
fn test_checksum_validation() {
    let payload = b"test";
    let mut buffer = vec![0u8; 64];

    let len = encode_with_envelope(payload, 0, &mut buffer).unwrap();

    // Corrupt the payload
    buffer[EnvelopeHeader::SIZE] ^= 0xFF;

    let result = decode_envelope(&buffer[..len]);
    assert!(result.is_err());
}

#[test]
fn test_corrupt_payload_is_invalid_format() {
    let payload = b"hello world";
    let mut buffer = vec![0u8; 64];
    let len = encode_with_envelope(payload, 0, &mut buffer).unwrap();
    buffer[12] ^= 0xFF;
    assert!(matches!(
        decode_envelope(&buffer[..len]),
        Err(WasmError::Deserialize(DeserializeError::InvalidFormat))
    ));
}

#[test]
fn test_decode_short_input_is_eof() {
    let input = [0u8; 11];
    assert!(matches!(
        decode_envelope(&input),
        Err(WasmError::Deserialize(DeserializeError::UnexpectedEof))
    ));
}

#[test]
fn test_decode_bad_magic_is_invalid_format() {
    let mut buffer = vec![0u8; 16];
    let len = encode_with_envelope(b"abcd", 0, &mut buffer).unwrap();
    buffer[0] = 0xFF;
    buffer[1] = 0xFF;
    assert!(matches!(
        decode_envelope(&buffer[..len]),
        Err(WasmError::Deserialize(DeserializeError::InvalidFormat))
    ));
}

#[test]
fn test_decode_future_version_is_invalid_format() {
    let mut buffer = vec![0u8; 16];
    let len = encode_with_envelope(b"abcd", 0, &mut buffer).unwrap();
    buffer[2] = 2;
    assert!(matches!(
        decode_envelope(&buffer[..len]),
        Err(WasmError::Deserialize(DeserializeError::InvalidFormat))
    ));
}

#[test]
fn test_decode_truncated_payload_is_eof() {
    let mut buffer = vec![0u8; 32];
    let len = encode_with_envelope(b"abcdefgh", 0, &mut buffer).unwrap();
    assert!(matches!(
        decode_envelope(&buffer[..len - 1]),
        Err(WasmError::Deserialize(DeserializeError::UnexpectedEof))
    ));
}

#[test]
fn test_decode_keeps_error_flag() {
    // A set IsError flag is a signal for the caller, not a decode failure.
    let mut buffer = vec![0u8; 32];
    let len = encode_with_envelope(b"oops", 8, &mut buffer).unwrap();
    let decoded = decode_envelope(&buffer[..len]).unwrap();
    assert!(decoded.header.is_error());
    assert_eq!(decoded.payload, b"oops");
}

#[test]
fn test_decode_raw_is_identity() {
    let bytes = [9u8, 8, 7];
    assert_eq!(decode_raw(&bytes), &bytes);
}
