//! Tests of the slice, packed-result, envelope and error types.

use aingle_wasm::DeserializeError;
use aingle_wasm::EnvelopeError;
use aingle_wasm::EnvelopeFlags;
use aingle_wasm::EnvelopeHeader;
use aingle_wasm::ErrorKind;
use aingle_wasm::ErrorMessage;
use aingle_wasm::HostError;
use aingle_wasm::WasmError;
use aingle_wasm::WasmErrorInner;
use aingle_wasm::WasmPrimitive;
use aingle_wasm::WasmResult;
use aingle_wasm::WasmSlice;
use aingle_wasm::MemoryError;
use aingle_wasm::SerializeError;
use aingle_wasm::MAGIC;
use aingle_wasm::PROTOCOL_VERSION;

#[test]
fn test_slice_pack_unpack() {
    let slice = WasmSlice::new(0x12345678, 0x1000);
    let packed = slice.pack();
    let unpacked = WasmSlice::unpack(packed);

    assert_eq!(packed, 0x1234_5678_0000_1000);
    assert_eq!(unpacked.ptr, 0x12345678);
    assert_eq!(unpacked.len, 0x1000);
}

#[test]
fn test_slice_overlap() {
    let a = WasmSlice::new(100, 50); // 100-150
    let b = WasmSlice::new(120, 50); // 120-170
    let c = WasmSlice::new(200, 50); // 200-250

    assert!(a.overlaps(&b));
    assert!(b.overlaps(&a));
    assert!(!a.overlaps(&c));
    assert!(!c.overlaps(&a));
}

#[test]
fn test_wasm_result() {
    let ok = WasmResult::ok(WasmSlice::new(100, 50));
    assert!(ok.is_ok());
    assert!(!ok.is_err());
    assert_eq!(ok.slice().ptr, 100);

    let err = WasmResult::err(WasmSlice::new(200, 10));
    assert!(err.is_err());
    assert!(!err.is_ok());
    assert_eq!(err.slice().ptr, 200);
}

#[test]
fn test_wasm_result_err_fields() {
    let err = WasmResult::err(WasmSlice::new(200, 10));
    assert!(err.is_err());
    assert_eq!(err.slice().ptr, 200);
    assert_eq!(err.slice().len, 10);
}

#[test]
fn test_wasm_result_raw_round_trip() {
    for raw in [0u64, 1, 0x1234_5678_9abc_def0, u64::MAX] {
        let r = WasmResult::from_raw(raw);
        assert_eq!(r.into_raw(), raw);
        assert!(r.is_ok() ^ r.is_err());
    }
}

#[test]
fn test_slice_contains_and_end() {
    let s = WasmSlice::new(10, 5);
    assert_eq!(s.end(), 15);
    assert!(s.contains(10));
    assert!(s.contains(14));
    assert!(!s.contains(15));
    assert!(!s.contains(9));
    let saturated = WasmSlice::new(u32::MAX - 1, 10);
    assert_eq!(saturated.end(), u32::MAX);
}

#[test]
fn test_header_roundtrip() {
    let header = EnvelopeHeader::new(1024, 0xDEADBEEF, 0);
    let bytes = header.to_bytes();
    let parsed = EnvelopeHeader::from_bytes(&bytes);

    let magic = parsed.magic;
    let version = parsed.version;
    let payload_len = parsed.payload_len;
    let checksum = parsed.checksum;

    assert_eq!(magic, MAGIC);
    assert_eq!(version, PROTOCOL_VERSION);
    assert_eq!(payload_len, 1024);
    assert_eq!(checksum, 0xDEADBEEF);
}

#[test]
fn test_header_validation() {
    let valid = EnvelopeHeader::new(100, 0, 0);
    assert!(valid.validate().is_ok());

    let invalid = EnvelopeHeader { magic: 0xFFFF, version: 1, flags: 0, payload_len: 0, checksum: 0 };
    assert!(matches!(invalid.validate(), Err(EnvelopeError::InvalidMagic(0xFFFF))));
}

#[test]
fn test_flags() {
    let flags = EnvelopeFlags::combine(&[EnvelopeFlags::Compressed, EnvelopeFlags::IsError]);

    assert!(EnvelopeFlags::Compressed.is_set(flags));
    assert!(EnvelopeFlags::IsError.is_set(flags));
    assert!(!EnvelopeFlags::Encrypted.is_set(flags));
}

#[test]
fn error_test_wasm_error_inner() {
    let err = WasmErrorInner::new(ErrorKind::Validation, "invalid input")
        .with_location("test.rs", 42);

    assert_eq!(err.kind, ErrorKind::Validation);
    assert_eq!(err.file, Some("test.rs".to_string()));
    assert_eq!(err.line, Some(42));
    assert_eq!(err.message(), "invalid input");
}

#[test]
fn test_wasm_error_display() {
    let err = WasmError::Guest("test error".to_string());
    assert_eq!(err.describe(), "guest error: test error");

    let err = WasmError::Host("host error".to_string());
    assert_eq!(err.describe(), "host error: host error");
}

#[test]
fn test_wasm_error_from_string() {
    let err: WasmError = "test".into();
    assert!(matches!(err, WasmError::Guest(_)));
}

#[test]
fn test_error_display() {
    let err = HostError::FunctionNotFound("test_fn".to_string());
    assert!(err.describe().contains("test_fn"));
}

#[test]
fn test_error_message() {
    let msg = ErrorMessage::from_static("test error");
    assert_eq!(msg.as_bytes(), b"test error");
}

#[test]
fn test_bool_primitive() {
    assert_eq!(true.to_wasm(), 1i32);
    assert_eq!(false.to_wasm(), 0i32);
    assert_eq!(bool::from_wasm(1), true);
    assert_eq!(bool::from_wasm(0), false);
    assert_eq!(bool::from_wasm(42), true);
}

#[test]
fn test_slice_primitive() {
    let slice = WasmSlice::new(100, 200);
    let wasm = slice.to_wasm();
    let back = WasmSlice::from_wasm(wasm);

    assert_eq!(back.ptr, 100);
    assert_eq!(back.len, 200);
}

#[test]
fn test_describe_names_inner_variant() {
    let e = WasmError::Deserialize(DeserializeError::UnexpectedEof);
    assert_eq!(e.describe(), "deserialization error: UnexpectedEof");
    let e = WasmError::Serialize(SerializeError::BufferTooSmall { needed: 3, available: 2 });
    assert_eq!(e.describe(), "serialization error: BufferTooSmall");
    let e = WasmError::Memory(MemoryError::ArenaExhausted);
    assert_eq!(e.describe(), "memory error: ArenaExhausted");
}

#[test]
fn test_describe_structured_with_location() {
    let inner = WasmErrorInner::new(ErrorKind::Validation, "invalid input")
        .with_location("test.rs", 42);
    let e = WasmError::GuestStructured(inner);
    assert_eq!(e.describe(), "[Validation] invalid input at test.rs:42");
}

#[test]
fn test_host_error_to_wasm_error() {
    let e: WasmError = WasmError::from(HostError::InvalidReturn);
    assert_eq!(
        e,
        WasmError::GuestCall(aingle_wasm::GuestCallError::InvalidReturn)
    );
    let e: WasmError = WasmError::from(HostError::MeteringExceeded);
    assert_eq!(
        e,
        WasmError::GuestCall(aingle_wasm::GuestCallError::MeteringExceeded)
    );
    let e: WasmError = WasmError::from(HostError::MemoryNotFound);
    assert_eq!(
        e,
        WasmError::HostCall(aingle_wasm::HostCallError::HostError(0))
    );
}
