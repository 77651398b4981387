//! Compatibility layer for the MessagePack-oriented call path: serialised
//! byte wrappers, the pointer-returning result path, and the serialised
//! form of an error crossing the boundary.

use crate::arena::GuestArena;
use crate::error::WasmError;
use crate::guest::return_bytes_ptr;
use crate::slice::DoubleUSize;
use crate::slice::WasmResult;
use crate::slice::WasmSlice;
use crate::slice::RESULT_ERROR_BIT;
use vstd::prelude::*;

verus! {

broadcast use vstd::std_specs::vec::axiom_spec_len, crate::slice::lemma_from_raw_inverse;

/// Serialised bytes crossing the boundary on the guest side.
#[derive(Clone, Debug, PartialEq, Eq)]
pub struct SerializedBytes(pub Vec<u8>);

impl SerializedBytes {
    /// Wrap raw bytes.
    pub fn new(bytes: Vec<u8>) -> (r: SerializedBytes)
        ensures
            r.0@ == bytes@,
    {
        SerializedBytes(bytes)
    }

    /// Unwrap into the raw bytes.
    pub fn into_vec(self) -> (r: Vec<u8>)
        ensures
            r@ == self.0@,
    {
        self.0
    }

    /// Borrow the raw bytes.
    pub fn as_bytes(&self) -> (r: &[u8])
        ensures
            r@ == self.0@,
    {
        self.0.as_slice()
    }
}

/// The MessagePack map `{"error_type": t, "message": m}` in
/// named-field encoding, a function of the two strings alone.
pub uninterp spec fn rmp_error_bytes(error_type: Seq<char>, message: Seq<char>) -> Seq<u8>;

/// Relies on rmp_serde::to_vec_named: the MessagePack encoding of the map
/// holding the two fields, a function of the two strings alone. Encoding a
/// map of strings into a byte vector cannot fail, so the fallback arm is
/// never taken.
#[verifier::external_body]
fn rmp_encode_error_fields(error_type: &str, message: &str) -> (r: Vec<u8>)
    ensures
        r@ == rmp_error_bytes(error_type@, message@),
{
    let mut fields = std::collections::BTreeMap::new();
    fields.insert("error_type", error_type);
    fields.insert("message", message);
    rmp_serde::to_vec_named(&fields).unwrap_or_default()
}

/// Return a serialised error to the host: encode the error's variant name
/// and rendering as a MessagePack map, copy it into the arena, and pack an
/// err result addressing the copy. When the copy cannot be placed below
/// the 2 GiB boundary, fall back to an error result with an empty slice.
pub fn return_err_ptr(arena: &mut GuestArena, error: &WasmError) -> (r: DoubleUSize)
    ensures
        WasmResult::spec_from_raw(r).spec_is_err(),
        old(arena).spec_allocated() + rmp_error_bytes(
            error.spec_variant_label(),
            error.spec_describe(),
        ).len() < 0x8000_0000 ==> {
            &&& final(arena).spec_bytes() == old(arena).spec_bytes() + rmp_error_bytes(
                error.spec_variant_label(),
                error.spec_describe(),
            )
            &&& r == (WasmSlice {
                ptr: old(arena).spec_allocated() as u32,
                len: rmp_error_bytes(
                    error.spec_variant_label(),
                    error.spec_describe(),
                ).len() as u32,
            }).spec_pack() | RESULT_ERROR_BIT
        },
        old(arena).spec_allocated() + rmp_error_bytes(
            error.spec_variant_label(),
            error.spec_describe(),
        ).len() >= 0x8000_0000 ==> *final(arena) == *old(arena) && r == RESULT_ERROR_BIT,
{
    let rendered = error.describe();
    let bytes = rmp_encode_error_fields(error.variant_label(), rendered.as_str());
    let fill = arena.allocated_bytes();
    if bytes.len() < 0x8000_0000 && fill < 0x8000_0000 - bytes.len() {
        let ptr = arena.alloc_copy(bytes.as_slice());
        let slice = WasmSlice::new(ptr as u32, bytes.len() as u32);
        proof {
            crate::slice::lemma_err_result_slice(slice);
        }
        WasmResult::err(slice).into_raw()
    } else {
        let empty = WasmSlice::empty();
        proof {
            assert((((0u64) << 32) | (0u64)) | 0x8000_0000_0000_0000u64
                == 0x8000_0000_0000_0000u64) by (bit_vector);
            assert(0x8000_0000_0000_0000u64 & 0x8000_0000_0000_0000u64 != 0u64) by (bit_vector);
        }
        WasmResult::err(empty).into_raw()
    }
}

/// Return already-serialised bytes to the host as a successful result:
/// copy them into the arena and pack an ok result addressing the copy.
/// When the copy cannot be placed below the 2 GiB boundary, fall back to
/// an error result with an empty slice.
pub fn return_serialized_ptr(arena: &mut GuestArena, bytes: &[u8]) -> (r: DoubleUSize)
    ensures
        old(arena).spec_allocated() + bytes@.len() < 0x8000_0000 ==> {
            &&& final(arena).spec_bytes() == old(arena).spec_bytes() + bytes@
            &&& r == (WasmSlice {
                ptr: old(arena).spec_allocated() as u32,
                len: bytes@.len() as u32,
            }).spec_pack()
            &&& WasmResult::spec_from_raw(r).spec_is_ok()
        },
        old(arena).spec_allocated() + bytes@.len() >= 0x8000_0000 ==> *final(arena) == *old(arena)
            && r == RESULT_ERROR_BIT && WasmResult::spec_from_raw(r).spec_is_err(),
{
    let fill = arena.allocated_bytes();
    if bytes.len() < 0x8000_0000 && fill < 0x8000_0000 - bytes.len() {
        return_bytes_ptr(arena, bytes)
    } else {
        let empty = WasmSlice::empty();
        proof {
            assert((((0u64) << 32) | (0u64)) | 0x8000_0000_0000_0000u64
                == 0x8000_0000_0000_0000u64) by (bit_vector);
            assert(0x8000_0000_0000_0000u64 & 0x8000_0000_0000_0000u64 != 0u64) by (bit_vector);
        }
        WasmResult::err(empty).into_raw()
    }
}

} // verus!
