//! Tests of the arena, the guest boundary, the host transfer primitives,
//! the module cache and the engine.

use aingle_wasm::arena_alloc;
use aingle_wasm::arena_alloc_copy;
use aingle_wasm::arena_reset;
use aingle_wasm::classify_guest_return;
use aingle_wasm::consume_bytes_from_guest;
use aingle_wasm::decode_guest_response;
use aingle_wasm::encode_host_call_args;
use aingle_wasm::encode_with_envelope;
use aingle_wasm::hex_encode;
use aingle_wasm::host_args;
use aingle_wasm::host_args_envelope;
use aingle_wasm::move_data_to_guest;
use aingle_wasm::parse_host_call_result;
use aingle_wasm::read_bytes;
use aingle_wasm::return_err;
use aingle_wasm::return_err_ptr;
use aingle_wasm::return_ok;
use aingle_wasm::return_serialized_ptr;
use aingle_wasm::unpack_host_result;
use aingle_wasm::build_guest_result;
use aingle_wasm::decode_envelope;
use aingle_wasm::Env;
use aingle_wasm::GuestArena;
use aingle_wasm::HostCallError;
use aingle_wasm::HostError;
use aingle_wasm::ModuleCache;
use aingle_wasm::WasmError;
use aingle_wasm::WasmResult;
use aingle_wasm::WasmSlice;

#[test]
fn test_arena_alloc() {
    let mut arena = GuestArena::new();

    let ptr1 = arena_alloc(&mut arena, 100);
    let ptr2 = arena_alloc(&mut arena, 200);

    assert_ne!(ptr1, ptr2);
    assert_eq!(ptr1, 0);
    assert_eq!(ptr2, 100);
}

#[test]
fn test_arena_copy() {
    let mut arena = GuestArena::new();
    let data = b"hello world";

    let ptr = arena_alloc_copy(&mut arena, data);

    let copied = arena.slice_at(ptr, data.len());
    assert_eq!(copied, data);
}

#[test]
fn test_arena_reset() {
    let mut arena = GuestArena::new();

    arena_alloc(&mut arena, 1000);
    let before = arena.allocated_bytes();
    assert!(before > 0);

    arena_reset(&mut arena);
    // After reset, new allocations start fresh at offset 0.
    assert_eq!(arena.allocated_bytes(), 0);
    assert_eq!(arena_alloc(&mut arena, 10), 0);
}

#[test]
fn test_host_args_empty() {
    let result = host_args(&[], 0, 0).unwrap();
    assert!(result.is_empty());
}

#[test]
fn test_host_args_reads_region() {
    let memory = [1u8, 2, 3, 4, 5, 6];
    assert_eq!(host_args(&memory, 2, 3).unwrap(), vec![3, 4, 5]);
    assert_eq!(read_bytes(&memory, 0, 2), vec![1, 2]);
}

#[test]
fn test_host_args_envelope_round_trip() {
    let mut memory = vec![0u8; 256];
    let len = encode_with_envelope(b"payload bytes", 0, &mut memory).unwrap();
    let payload = host_args_envelope(&memory, 0, len as u32).unwrap();
    assert_eq!(payload, b"payload bytes");
}

#[test]
fn test_return_ok() {
    let mut arena = GuestArena::new();
    let data = b"test response";
    let result = return_ok(&mut arena, data);

    assert_ne!(result, 0);

    let wasm_result = WasmResult::from_raw(result);
    let slice = wasm_result.slice();

    assert!(slice.len > 0);
    // The arena now holds the envelope the result addresses; decoding it
    // recovers the data.
    let held = arena.slice_at(slice.ptr as usize, slice.len as usize);
    let decoded = decode_envelope(held).unwrap();
    assert_eq!(decoded.payload, data);
    assert!(!decoded.header.is_error());
}

#[test]
fn test_return_err() {
    let mut arena = GuestArena::new();
    let msg = b"error message";
    let result = return_err(&mut arena, msg);

    let wasm_result = WasmResult::from_raw(result);
    assert!(wasm_result.is_err());

    let slice = wasm_result.slice();
    let held = arena.slice_at(slice.ptr as usize, slice.len as usize);
    let decoded = decode_envelope(held).unwrap();
    assert!(decoded.header.is_error());
    assert_eq!(decoded.payload, msg);
}

#[test]
fn test_return_ok_degrades_to_encoding_error() {
    // Data over the return buffer's capacity cannot be framed; the result
    // degrades to an error envelope carrying "encoding error".
    let mut arena = GuestArena::new();
    let data = vec![1u8; 5000];
    let result = return_ok(&mut arena, &data);

    let wasm_result = WasmResult::from_raw(result);
    assert!(wasm_result.is_err());
    let slice = wasm_result.slice();
    let held = arena.slice_at(slice.ptr as usize, slice.len as usize);
    let decoded = decode_envelope(held).unwrap();
    assert!(decoded.header.is_error());
    assert_eq!(decoded.payload, b"encoding error");
}

#[test]
fn test_return_err_last_resort_is_empty_error() {
    // A message over the error buffer's capacity cannot be framed either;
    // the terminal fallback is an error result with an empty slice.
    let mut arena = GuestArena::new();
    let message = vec![2u8; 500];
    let result = return_err(&mut arena, &message);

    let wasm_result = WasmResult::from_raw(result);
    assert!(wasm_result.is_err());
    assert_eq!(wasm_result.slice(), WasmSlice::empty());
    assert_eq!(arena.allocated_bytes(), 0);
}

#[test]
fn test_encoding_roundtrip() {
    let data = b"test payload";
    let mut buffer = vec![0u8; 256];

    let len = encode_with_envelope(data, 0, &mut buffer).unwrap();
    assert!(len > data.len());

    let envelope = decode_envelope(&buffer[..len]).unwrap();
    assert_eq!(envelope.payload, data);
}

#[test]
fn test_encode_host_call_args_places_frame() {
    let mut arena = GuestArena::new();
    let slice = encode_host_call_args(&mut arena, b"args").unwrap();
    assert_eq!(slice.ptr, 0);
    assert_eq!(slice.len, 16);
    let held = arena.slice_at(0, 16);
    let decoded = decode_envelope(held).unwrap();
    assert_eq!(decoded.payload, b"args");
}

#[test]
fn test_parse_host_call_result_cases() {
    // Empty slice, error bit set: a host error with code 0.
    let empty_err = WasmResult::err(WasmSlice::empty()).into_raw();
    assert!(matches!(
        parse_host_call_result(empty_err, &[]),
        Err(WasmError::HostCall(HostCallError::HostError(0)))
    ));

    // Empty slice, ok: empty response.
    let empty_ok = WasmResult::ok(WasmSlice::empty()).into_raw();
    assert_eq!(parse_host_call_result(empty_ok, &[]).unwrap(), Vec::<u8>::new());

    // A real envelope comes back.
    let mut buffer = vec![0u8; 64];
    let len = encode_with_envelope(b"resp", 0, &mut buffer).unwrap();
    let ok = WasmResult::ok(WasmSlice::new(64, len as u32)).into_raw();
    assert_eq!(parse_host_call_result(ok, &buffer[..len]).unwrap(), b"resp");

    // Error-flagged envelope carrying a code in its first four bytes.
    let mut err_buffer = vec![0u8; 64];
    let err_len = encode_with_envelope(&7u32.to_le_bytes(), 8, &mut err_buffer).unwrap();
    let raw = WasmResult::ok(WasmSlice::new(64, err_len as u32)).into_raw();
    assert!(matches!(
        parse_host_call_result(raw, &err_buffer[..err_len]),
        Err(WasmError::HostCall(HostCallError::HostError(7)))
    ));
}

#[test]
fn test_unpack_host_result() {
    let ok = WasmResult::ok(WasmSlice::new(5, 6)).into_raw();
    assert_eq!(unpack_host_result(ok).unwrap(), WasmSlice::new(5, 6));
    let err = WasmResult::err(WasmSlice::new(5, 6)).into_raw();
    assert!(matches!(
        unpack_host_result(err),
        Err(WasmError::HostCall(HostCallError::HostError(0)))
    ));
}

#[test]
fn test_return_serialized_ptr_round_trip() {
    let mut arena = GuestArena::new();
    let raw = return_serialized_ptr(&mut arena, b"msgpack bytes");
    let result = WasmResult::from_raw(raw);
    assert!(result.is_ok());
    let slice = result.slice();
    assert_eq!(arena.slice_at(slice.ptr as usize, slice.len as usize), b"msgpack bytes");
}

#[test]
fn test_return_err_ptr_encodes_fields() {
    let mut arena = GuestArena::new();
    let raw = return_err_ptr(&mut arena, &WasmError::Guest("boom".to_string()));
    let result = WasmResult::from_raw(raw);
    assert!(result.is_err());
    let slice = result.slice();
    let bytes = arena.slice_at(slice.ptr as usize, slice.len as usize);
    // A MessagePack map of two entries, naming both fields.
    assert_eq!(bytes[0], 0x82);
    let text = String::from_utf8_lossy(bytes);
    assert!(text.contains("error_type"));
    assert!(text.contains("message"));
    assert!(text.contains("Guest"));
    assert!(text.contains("guest error: boom"));
}

#[test]
fn test_consume_bytes() {
    let memory = vec![0, 1, 2, 3, 4, 5, 6, 7, 8, 9];
    let bytes = consume_bytes_from_guest(&memory, 2, 4).unwrap();
    assert_eq!(bytes, vec![2, 3, 4, 5]);
}

#[test]
fn test_consume_bytes_out_of_bounds() {
    let memory = vec![0u8; 8];
    let err = consume_bytes_from_guest(&memory, 6, 4).unwrap_err();
    match err {
        HostError::MemoryAccess(m) => assert_eq!(m, "out of bounds: 6..10 > 8"),
        other => panic!("unexpected error: {:?}", other),
    }
}

#[test]
fn test_move_data() {
    let mut memory = vec![0u8; 100];
    let data = b"hello";

    let slice = move_data_to_guest(&mut memory, 10, data).unwrap();
    assert_eq!(slice.ptr, 10);
    assert_eq!(slice.len, 5);
    assert_eq!(&memory[10..15], data);
}

#[test]
fn test_build_guest_result_frames() {
    let framed = build_guest_result(b"data", false).unwrap();
    let decoded = decode_envelope(&framed).unwrap();
    assert_eq!(decoded.payload, b"data");
    assert!(!decoded.header.is_error());

    let framed = build_guest_result(b"bad", true).unwrap();
    let decoded = decode_envelope(&framed).unwrap();
    assert!(decoded.header.is_error());
}

#[test]
fn test_classify_guest_return() {
    let empty_err = WasmResult::err(WasmSlice::empty()).into_raw();
    match classify_guest_return(empty_err) {
        Err(HostError::GuestError(m)) => assert_eq!(m, "empty error"),
        other => panic!("unexpected: {:?}", other),
    }
    let empty_ok = WasmResult::ok(WasmSlice::empty()).into_raw();
    assert_eq!(classify_guest_return(empty_ok).unwrap(), None);
    let full = WasmResult::ok(WasmSlice::new(4, 9)).into_raw();
    assert_eq!(classify_guest_return(full).unwrap(), Some(WasmSlice::new(4, 9)));
}

#[test]
fn test_decode_guest_response_paths() {
    let mut buffer = vec![0u8; 64];
    let len = encode_with_envelope(b"fine", 0, &mut buffer).unwrap();
    assert_eq!(decode_guest_response(false, &buffer[..len]).unwrap(), b"fine");

    // The error flag turns the payload into the guest's message.
    let mut err_buffer = vec![0u8; 64];
    let err_len = encode_with_envelope(b"guest broke", 8, &mut err_buffer).unwrap();
    match decode_guest_response(false, &err_buffer[..err_len]) {
        Err(HostError::GuestError(m)) => assert_eq!(m, "guest broke"),
        other => panic!("unexpected: {:?}", other),
    }

    match decode_guest_response(false, &[1, 2, 3]) {
        Err(HostError::Deserialization(_)) => (),
        other => panic!("unexpected: {:?}", other),
    }
}

#[test]
fn test_env_default() {
    let env = Env::new();
    assert!(!env.is_initialized());
    assert!(env.memory.is_none());
    assert!(env.allocate.is_none());
    assert!(env.deallocate.is_none());
}

#[test]
fn test_hex_encode() {
    assert_eq!(hex_encode(&[0xde, 0xad, 0xbe, 0xef]), "deadbeef");
}

#[test]
fn test_cache_creation() {
    let cache = ModuleCache::new(None);
    assert!(cache.cache_path().is_none());
    assert!(cache.is_empty());
}

#[test]
fn test_cache_with_path() {
    let path = "/tmp/test_cache".to_string();
    let cache = ModuleCache::new(Some(path.clone()));
    assert_eq!(cache.cache_path(), Some(&path));
}





