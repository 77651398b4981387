//! Guest-side boundary: reading call arguments out of guest memory,
//! returning envelope-framed results through the arena, and the guest's half
//! of a call back into the host.
//!
//! Guest memory is a byte region and guest pointers are offsets into it; the
//! functions here take the region and the arena explicitly.

use crate::arena::GuestArena;
use crate::codec::decode_envelope;
use crate::codec::encode_with_envelope;
use crate::codec::spec_decode;
use crate::codec::spec_envelope_bytes;
use crate::envelope::EnvelopeFlags;
use crate::envelope::HEADER_SIZE;
use crate::error::HostCallError;
use crate::error::SerializeError;
use crate::error::WasmError;
use crate::slice::DoubleUSize;
use crate::slice::WasmResult;
use crate::slice::WasmSlice;
use crate::slice::RESULT_ERROR_BIT;
use vstd::bytes::spec_u32_from_le_bytes;
use vstd::bytes::u32_from_le_bytes;
use vstd::prelude::*;
use vstd::slice::slice_subrange;
use vstd::slice::slice_to_vec;

verus! {

broadcast use vstd::std_specs::vec::axiom_spec_len, crate::slice::lemma_from_raw_inverse;

/// Size of the scratch buffer a guest return value is framed in.
pub const RETURN_BUFFER_SIZE: usize = 4096;

/// Size of the scratch buffer a guest error message is framed in.
pub const ERROR_BUFFER_SIZE: usize = 256;

/// The fallback message returned when framing a result fails:
/// the ASCII bytes of "encoding error".
pub open spec fn spec_encoding_error_message() -> Seq<u8> {
    seq![101u8, 110u8, 99u8, 111u8, 100u8, 105u8, 110u8, 103u8, 32u8, 101u8, 114u8, 114u8, 111u8, 114u8]
}

fn encoding_error_message() -> (r: [u8; 14])
    ensures
        r@ == spec_encoding_error_message(),
{
    let msg: [u8; 14] = [101, 110, 99, 111, 100, 105, 110, 103, 32, 101, 114, 114, 111, 114];
    proof {
        assert(msg@ =~= spec_encoding_error_message());
    }
    msg
}

/// Read the arguments a call handed to the guest: decode the envelope at
/// `(ptr, len)` in guest memory and give back the payload bytes. A zero
/// length means no arguments and yields empty payload bytes.
pub fn host_args_envelope(memory: &[u8], ptr: u32, len: u32) -> (r: Result<Vec<u8>, WasmError>)
    requires
        len > 0 ==> ptr + len <= memory@.len(),
    ensures
        len == 0 ==> (r matches Ok(v) && v@ == Seq::<u8>::empty()),
        len > 0 ==> match spec_decode(memory@.subrange(ptr as int, ptr + len)) {
            Ok(hp) => r matches Ok(v) && v@ == hp.1,
            Err(e) => r == Result::<Vec<u8>, WasmError>::Err(e),
        },
{
    if len == 0 {
        return Ok(Vec::new());
    }
    let total = memory.len();
    proof {
        assert(ptr + len <= total);
    }
    let end = ptr as usize + len as usize;
    let bytes = slice_subrange(memory, ptr as usize, end);
    let envelope = decode_envelope(bytes)?;
    Ok(envelope.payload)
}

/// Read raw bytes from guest memory, without envelope processing. A zero
/// length yields empty bytes without touching memory.
pub fn read_bytes(memory: &[u8], ptr: u32, len: u32) -> (r: Vec<u8>)
    requires
        len > 0 ==> ptr + len <= memory@.len(),
    ensures
        len == 0 ==> r@ == Seq::<u8>::empty(),
        len > 0 ==> r@ == memory@.subrange(ptr as int, ptr + len),
{
    if len == 0 {
        return Vec::new();
    }
    let total = memory.len();
    proof {
        assert(ptr + len <= total);
    }
    let end = ptr as usize + len as usize;
    slice_to_vec(slice_subrange(memory, ptr as usize, end))
}

/// Read raw input bytes for a guest call. A zero length yields empty bytes.
pub fn host_args(memory: &[u8], guest_ptr: u32, len: u32) -> (r: Result<Vec<u8>, DoubleUSize>)
    requires
        len > 0 ==> guest_ptr + len <= memory@.len(),
    ensures
        len == 0 ==> (r matches Ok(v) && v@ == Seq::<u8>::empty()),
        len > 0 ==> (r matches Ok(v) && v@ == memory@.subrange(guest_ptr as int, guest_ptr + len)),
{
    Ok(read_bytes(memory, guest_ptr, len))
}

/// Return a successful result to the host: frame the data in an envelope,
/// copy it into the arena, and pack an ok result addressing the copy. When
/// the data does not fit the return buffer, degrade to an error result
/// carrying "encoding error". The arena must still sit below the 2 GiB
/// boundary, which the packed result format reserves for its error bit.
pub fn return_ok(arena: &mut GuestArena, data: &[u8]) -> (r: u64)
    requires
        old(arena).spec_allocated() + RETURN_BUFFER_SIZE < 0x8000_0000,
        data@.len() + HEADER_SIZE <= u32::MAX,
    ensures
        data@.len() + HEADER_SIZE <= RETURN_BUFFER_SIZE ==> {
            &&& final(arena).spec_bytes() == old(arena).spec_bytes() + spec_envelope_bytes(
                data@,
                0,
            )
            &&& r == (WasmSlice {
                ptr: old(arena).spec_allocated() as u32,
                len: (data@.len() + HEADER_SIZE) as u32,
            }).spec_pack()
            &&& WasmResult::spec_from_raw(r).spec_is_ok()
        },
        data@.len() + HEADER_SIZE > RETURN_BUFFER_SIZE ==> {
            &&& final(arena).spec_bytes() == old(arena).spec_bytes() + spec_envelope_bytes(
                spec_encoding_error_message(),
                8,
            )
            &&& r == (WasmSlice {
                ptr: old(arena).spec_allocated() as u32,
                len: (spec_encoding_error_message().len() + HEADER_SIZE) as u32,
            }).spec_pack() | RESULT_ERROR_BIT
            &&& WasmResult::spec_from_raw(r).spec_is_err()
        },
{
    let mut buffer: Vec<u8> = vec![0u8; RETURN_BUFFER_SIZE];
    match encode_with_envelope(data, 0, &mut buffer) {
        Ok(len) => {
            let envelope = slice_subrange(buffer.as_slice(), 0, len);
            proof {
                assert(envelope@ =~= spec_envelope_bytes(data@, 0));
            }
            let ptr = arena.alloc_copy(envelope);
            let slice = WasmSlice::new(ptr as u32, len as u32);
            proof {
                crate::slice::lemma_ok_result_slice(slice);
            }
            WasmResult::ok(slice).into_raw()
        },
        Err(_) => {
            let msg = encoding_error_message();
            return_err(arena, msg.as_slice())
        },
    }
}

/// Return an error result to the host: frame the message in an envelope
/// with the error flag set, copy it into the arena, and pack an err result
/// addressing the copy. When even that fails, fall back to an error result
/// with an empty slice, which the host accepts. The arena must still sit
/// below the 2 GiB boundary, which the packed result format reserves for
/// its error bit.
pub fn return_err(arena: &mut GuestArena, message: &[u8]) -> (r: u64)
    requires
        old(arena).spec_allocated() + ERROR_BUFFER_SIZE < 0x8000_0000,
        message@.len() + HEADER_SIZE <= u32::MAX,
    ensures
        WasmResult::spec_from_raw(r).spec_is_err(),
        message@.len() + HEADER_SIZE <= ERROR_BUFFER_SIZE ==> {
            &&& final(arena).spec_bytes() == old(arena).spec_bytes() + spec_envelope_bytes(
                message@,
                8,
            )
            &&& r == (WasmSlice {
                ptr: old(arena).spec_allocated() as u32,
                len: (message@.len() + HEADER_SIZE) as u32,
            }).spec_pack() | RESULT_ERROR_BIT
        },
        message@.len() + HEADER_SIZE > ERROR_BUFFER_SIZE ==> {
            &&& *final(arena) == *old(arena)
            &&& r == RESULT_ERROR_BIT
        },
{
    let mut buffer: Vec<u8> = vec![0u8; ERROR_BUFFER_SIZE];
    let flags = EnvelopeFlags::IsError.bit();
    match encode_with_envelope(message, flags, &mut buffer) {
        Ok(len) => {
            let envelope = slice_subrange(buffer.as_slice(), 0, len);
            proof {
                assert(envelope@ =~= spec_envelope_bytes(message@, 8));
            }
            let ptr = arena.alloc_copy(envelope);
            let slice = WasmSlice::new(ptr as u32, len as u32);
            proof {
                crate::slice::lemma_err_result_slice(slice);
            }
            WasmResult::err(slice).into_raw()
        },
        Err(_) => {
            let empty = WasmSlice::empty();
            proof {
                assert((((0u64) << 32) | (0u64)) == 0u64) by (bit_vector);
                assert((0u64 | 0x8000_0000_0000_0000u64) == 0x8000_0000_0000_0000u64)
                    by (bit_vector);
                assert(0x8000_0000_0000_0000u64 & 0x8000_0000_0000_0000u64 != 0u64)
                    by (bit_vector);
            }
            WasmResult::err(empty).into_raw()
        },
    }
}

/// Frame the arguments of a guest-to-host call in an envelope and place the
/// frame in the arena, where the host will read it; the returned slice
/// addresses the frame. The arena must still sit below the 2 GiB boundary,
/// which the packed result format reserves for its error bit.
pub fn encode_host_call_args(arena: &mut GuestArena, args: &[u8]) -> (r: Result<
    WasmSlice,
    WasmError,
>)
    requires
        old(arena).spec_allocated() + RETURN_BUFFER_SIZE < 0x8000_0000,
        args@.len() + HEADER_SIZE <= u32::MAX,
    ensures
        args@.len() + HEADER_SIZE <= RETURN_BUFFER_SIZE ==> {
            &&& r == Result::<WasmSlice, WasmError>::Ok(
                WasmSlice {
                    ptr: old(arena).spec_allocated() as u32,
                    len: (args@.len() + HEADER_SIZE) as u32,
                },
            )
            &&& final(arena).spec_bytes() == old(arena).spec_bytes() + spec_envelope_bytes(
                args@,
                0,
            )
        },
        args@.len() + HEADER_SIZE > RETURN_BUFFER_SIZE ==> {
            &&& r == Result::<WasmSlice, WasmError>::Err(
                WasmError::Serialize(
                    SerializeError::BufferTooSmall {
                        needed: (args@.len() + HEADER_SIZE) as usize,
                        available: RETURN_BUFFER_SIZE,
                    },
                ),
            )
            &&& *final(arena) == *old(arena)
        },
{
    let mut buffer: Vec<u8> = vec![0u8; RETURN_BUFFER_SIZE];
    let len = encode_with_envelope(args, 0, &mut buffer)?;
    let envelope = slice_subrange(buffer.as_slice(), 0, len);
    proof {
        assert(envelope@ =~= spec_envelope_bytes(args@, 0));
    }
    let ptr = arena.alloc_copy(envelope);
    Ok(WasmSlice::new(ptr as u32, len as u32))
}

/// What the guest concludes from a host call's packed result and the
/// response bytes the result addresses: the response payload, or the error
/// the result and response earn.
pub open spec fn spec_host_call_outcome(raw: u64, response: Seq<u8>) -> Result<Seq<u8>, WasmError> {
    let wr = WasmResult::spec_from_raw(raw);
    let s = wr.spec_slice();
    if s.len == 0 {
        if wr.spec_is_err() {
            Err(WasmError::HostCall(HostCallError::HostError(0)))
        } else {
            Ok(Seq::<u8>::empty())
        }
    } else {
        match spec_decode(response) {
            Err(e) => Err(e),
            Ok(hp) => {
                if WasmResult::spec_from_raw(raw).spec_is_err() || hp.0.flags & 8 != 0 {
                    let code = if hp.1.len() >= 4 {
                        spec_u32_from_le_bytes(hp.1.subrange(0, 4))
                    } else {
                        0u32
                    };
                    Err(WasmError::HostCall(HostCallError::HostError(code)))
                } else {
                    Ok(hp.1)
                }
            },
        }
    }
}

/// The guest's parse of a host call's return: take the packed result and
/// the bytes read at the slice it addresses, decode the envelope, and map
/// an error result or error-flagged envelope to the error code carried in
/// the payload's first four bytes.
pub fn parse_host_call_result(raw: u64, response: &[u8]) -> (r: Result<Vec<u8>, WasmError>)
    ensures
        match spec_host_call_outcome(raw, response@) {
            Ok(p) => r matches Ok(v) && v@ == p,
            Err(e) => r == Result::<Vec<u8>, WasmError>::Err(e),
        },
{
    let wasm_result = WasmResult::from_raw(raw);
    let result_slice = wasm_result.slice();
    if result_slice.is_empty() {
        if wasm_result.is_err() {
            return Err(WasmError::HostCall(HostCallError::HostError(0)));
        }
        return Ok(Vec::new());
    }
    let envelope = decode_envelope(response)?;
    if wasm_result.is_err() || envelope.header.is_error() {
        let code = if envelope.payload.len() >= 4 {
            u32_from_le_bytes(slice_subrange(envelope.payload.as_slice(), 0, 4))
        } else {
            0
        };
        return Err(WasmError::HostCall(HostCallError::HostError(code)));
    }
    Ok(envelope.payload)
}

/// The guest's parse of a bare packed result, for the path that carries
/// MessagePack values instead of envelopes: an error result is a host error,
/// an ok result addresses the response.
pub fn unpack_host_result(raw: u64) -> (r: Result<WasmSlice, WasmError>)
    ensures
        WasmResult::spec_from_raw(raw).spec_is_err() ==> r == Result::<WasmSlice, WasmError>::Err(
            WasmError::HostCall(HostCallError::HostError(0)),
        ),
        !WasmResult::spec_from_raw(raw).spec_is_err() ==> r == Result::<WasmSlice, WasmError>::Ok(
            WasmResult::spec_from_raw(raw).spec_slice(),
        ),
{
    let wasm_result = WasmResult::from_raw(raw);
    if wasm_result.is_err() {
        return Err(WasmError::HostCall(HostCallError::HostError(0)));
    }
    Ok(wasm_result.slice())
}

/// Place already-serialised bytes in the arena and pack an ok result
/// addressing them, for the path that carries MessagePack values instead of
/// envelopes. The copy must land below the 2 GiB boundary, which the packed
/// result format reserves for its error bit.
pub fn return_bytes_ptr(arena: &mut GuestArena, bytes: &[u8]) -> (r: u64)
    requires
        old(arena).spec_allocated() + bytes@.len() < 0x8000_0000,
    ensures
        final(arena).spec_bytes() == old(arena).spec_bytes() + bytes@,
        r == (WasmSlice {
            ptr: old(arena).spec_allocated() as u32,
            len: bytes@.len() as u32,
        }).spec_pack(),
        WasmResult::spec_from_raw(r).spec_is_ok(),
{
    let ptr = arena.alloc_copy(bytes);
    let slice = WasmSlice::new(ptr as u32, bytes.len() as u32);
    proof {
        crate::slice::lemma_ok_result_slice(slice);
    }
    WasmResult::ok(slice).into_raw()
}

} // verus!
