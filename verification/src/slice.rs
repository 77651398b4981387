//! Pointer/length slices of guest linear memory and the packed result value
//! by which guest exports report an ok-or-err outcome together with a slice,
//! all inside a single 64-bit scalar.

use vstd::prelude::*;

verus! {

/// Bit 63 of a packed result: clear means ok, set means err.
pub const RESULT_ERROR_BIT: u64 = 0x8000_0000_0000_0000;

/// Double usize for guest function returns (compatibility alias).
pub type DoubleUSize = u64;

/// A slice of WASM linear memory represented as pointer + length.
///
/// This is the fundamental type for passing data across the host/guest
/// boundary without copying.
#[derive(Clone, Copy, Debug, PartialEq, Eq, Structural)]
pub struct WasmSlice {
    /// Pointer to the start of the data in WASM linear memory.
    pub ptr: u32,
    /// Length of the data in bytes.
    pub len: u32,
}

impl WasmSlice {
    /// What `pack` produces: high 32 bits hold the pointer, low 32 the length.
    pub open spec fn spec_pack(self) -> u64 {
        ((self.ptr as u64) << 32) | (self.len as u64)
    }

    /// What `unpack` recovers from a packed scalar.
    pub open spec fn spec_unpack(packed: u64) -> WasmSlice {
        WasmSlice { ptr: (packed >> 32) as u32, len: (packed & 0xffff_ffff) as u32 }
    }

    /// One past the last addressed offset, saturating at the address limit.
    pub open spec fn spec_end(self) -> int {
        if self.ptr + self.len > u32::MAX {
            u32::MAX as int
        } else {
            self.ptr + self.len
        }
    }

    /// Create a new slice.
    pub fn new(ptr: u32, len: u32) -> (r: WasmSlice)
        ensures
            r == (WasmSlice { ptr, len }),
    {
        WasmSlice { ptr, len }
    }

    /// Create an empty slice.
    pub fn empty() -> (r: WasmSlice)
        ensures
            r == (WasmSlice { ptr: 0u32, len: 0u32 }),
    {
        WasmSlice { ptr: 0, len: 0 }
    }

    /// Check whether the slice is empty.
    pub fn is_empty(&self) -> (r: bool)
        ensures
            r == (self.len == 0),
    {
        self.len == 0
    }

    /// Pack into a single u64 return value: `(ptr << 32) | len`.
    pub fn pack(&self) -> (r: u64)
        ensures
            r == self.spec_pack(),
    {
        ((self.ptr as u64) << 32) | (self.len as u64)
    }

    /// Unpack from a u64 return value.
    pub fn unpack(packed: u64) -> (r: WasmSlice)
        ensures
            r == WasmSlice::spec_unpack(packed),
    {
        let ptr: u32 = (packed >> 32) as u32;
        let len: u32 = (packed & 0xffff_ffff) as u32;
        WasmSlice { ptr, len }
    }

    /// Get the end offset `ptr + len`, saturating on overflow.
    pub fn end(&self) -> (r: u32)
        ensures
            r == self.spec_end(),
    {
        self.ptr.saturating_add(self.len)
    }

    /// Check whether this slice overlaps another.
    pub fn overlaps(&self, other: &WasmSlice) -> (r: bool)
        ensures
            r == (self.ptr < other.spec_end() && other.ptr < self.spec_end()),
    {
        self.ptr < other.end() && other.ptr < self.end()
    }

    /// Check whether an offset lies within this slice.
    pub fn contains(&self, offset: u32) -> (r: bool)
        ensures
            r == (self.ptr <= offset && offset < self.spec_end()),
    {
        offset >= self.ptr && offset < self.end()
    }
}

/// Packing then unpacking recovers any pointer/length pair exactly.
pub proof fn lemma_slice_pack_unpack(s: WasmSlice)
    ensures
        WasmSlice::spec_unpack(s.spec_pack()) == s,
{
    let p = s.ptr;
    let l = s.len;
    assert(((((p as u64) << 32) | (l as u64)) >> 32) as u32 == p && ((((p as u64) << 32) | (
    l as u64)) & 0xffff_ffff) as u32 == l) by (bit_vector);
}

/// A typed reference to data in WASM memory.
///
/// Provides type safety for WASM memory access without containing the data.
#[derive(Debug)]
pub struct WasmRef<T> {
    slice: WasmSlice,
    _phantom: core::marker::PhantomData<T>,
}

impl<T> WasmRef<T> {
    /// The slice this reference addresses.
    pub closed spec fn spec_slice(&self) -> WasmSlice {
        self.slice
    }

    /// Create a new typed reference over a slice.
    pub fn new(slice: WasmSlice) -> (r: WasmRef<T>)
        ensures
            r.spec_slice() == slice,
    {
        WasmRef { slice, _phantom: core::marker::PhantomData }
    }

    /// Get the underlying slice.
    pub fn slice(&self) -> (r: WasmSlice)
        ensures
            r == self.spec_slice(),
    {
        self.slice
    }

    /// Get the pointer.
    pub fn ptr(&self) -> (r: u32)
        ensures
            r == self.spec_slice().ptr,
    {
        self.slice.ptr
    }

    /// Get the length.
    pub fn len(&self) -> (r: u32)
        ensures
            r == self.spec_slice().len,
    {
        self.slice.len
    }

    /// Check whether the addressed region is empty.
    pub fn is_empty(&self) -> (r: bool)
        ensures
            r == (self.spec_slice().len == 0),
    {
        self.slice.is_empty()
    }
}

/// Result of a boundary call, packed for return as one u64.
///
/// Bit 63 distinguishes ok (clear) from err (set); the remaining bits carry a
/// packed `WasmSlice`.
#[derive(Clone, Copy, Debug)]
pub struct WasmResult(u64);

impl WasmResult {
    /// The raw packed scalar.
    pub closed spec fn spec_raw(&self) -> u64 {
        self.0
    }

    /// The result carrying a given raw scalar.
    pub closed spec fn spec_from_raw(raw: u64) -> WasmResult {
        WasmResult(raw)
    }

    /// Whether the error bit is set.
    pub open spec fn spec_is_err(&self) -> bool {
        self.spec_raw() & RESULT_ERROR_BIT != 0
    }

    /// Whether the error bit is clear.
    pub open spec fn spec_is_ok(&self) -> bool {
        self.spec_raw() & RESULT_ERROR_BIT == 0
    }

    /// The slice addressed by the result, with the error bit masked off.
    pub open spec fn spec_slice(&self) -> WasmSlice {
        WasmSlice::spec_unpack(self.spec_raw() & 0x7fff_ffff_ffff_ffff)
    }

    /// Create a successful result.
    pub fn ok(slice: WasmSlice) -> (r: WasmResult)
        ensures
            r.spec_raw() == slice.spec_pack(),
    {
        WasmResult(slice.pack())
    }

    /// Create an error result.
    pub fn err(slice: WasmSlice) -> (r: WasmResult)
        ensures
            r.spec_raw() == slice.spec_pack() | RESULT_ERROR_BIT,
            r.spec_is_err(),
    {
        let packed = slice.pack();
        let raw = packed | RESULT_ERROR_BIT;
        proof {
            assert((packed | 0x8000_0000_0000_0000u64) & 0x8000_0000_0000_0000u64 != 0)
                by (bit_vector);
        }
        WasmResult(raw)
    }

    /// Check whether this is an error result.
    pub fn is_err(&self) -> (r: bool)
        ensures
            r == self.spec_is_err(),
    {
        self.0 & RESULT_ERROR_BIT != 0
    }

    /// Check whether this is a successful result.
    pub fn is_ok(&self) -> (r: bool)
        ensures
            r == self.spec_is_ok(),
    {
        !self.is_err()
    }

    /// Get the slice carried by the result, error bit cleared.
    pub fn slice(&self) -> (r: WasmSlice)
        ensures
            r == self.spec_slice(),
    {
        WasmSlice::unpack(self.0 & 0x7fff_ffff_ffff_ffff)
    }

    /// Convert to the raw u64.
    pub fn into_raw(self) -> (r: u64)
        ensures
            r == self.spec_raw(),
    {
        self.0
    }

    /// Create from a raw u64.
    pub fn from_raw(raw: u64) -> (r: WasmResult)
        ensures
            r == WasmResult::spec_from_raw(raw),
            r.spec_raw() == raw,
    {
        WasmResult(raw)
    }
}

/// A result rebuilt from a raw scalar carries exactly that scalar.
pub broadcast proof fn lemma_from_raw_inverse(raw: u64)
    ensures
        #[trigger] WasmResult::spec_from_raw(raw).spec_raw() == raw,
{
}

/// Rebuilding a result from its raw scalar recovers it exactly, and every
/// result is ok or err but never both.
pub proof fn lemma_result_round_trip(r: WasmResult)
    ensures
        WasmResult::spec_from_raw(r.spec_raw()) == r,
        r.spec_is_ok() <==> !r.spec_is_err(),
{
    let raw = r.spec_raw();
    assert((raw & 0x8000_0000_0000_0000u64 == 0) <==> !(raw & 0x8000_0000_0000_0000u64 != 0))
        by (bit_vector);
}

/// An ok result on a slice whose pointer stays below the 2 GiB boundary
/// reports exactly that slice, and reports success.
pub proof fn lemma_ok_result_slice(s: WasmSlice)
    requires
        s.ptr < 0x8000_0000,
    ensures
        WasmResult::spec_from_raw(s.spec_pack()).spec_slice() == s,
        !WasmResult::spec_from_raw(s.spec_pack()).spec_is_err(),
{
    let p = s.ptr;
    let l = s.len;
    assert((((p as u64) << 32) | (l as u64)) & 0x8000_0000_0000_0000u64 == 0 && ((((p as u64)
        << 32) | (l as u64)) & 0x7fff_ffff_ffff_ffffu64) == (((p as u64) << 32) | (l as u64)))
        by (bit_vector)
        requires
            p < 0x8000_0000u32,
    ;
    lemma_slice_pack_unpack(s);
}

/// An err result carries the slice it was built from, whenever the pointer
/// stays below the 2 GiB boundary.
pub proof fn lemma_err_result_slice(s: WasmSlice)
    requires
        s.ptr < 0x8000_0000,
    ensures
        WasmResult::spec_from_raw(s.spec_pack() | RESULT_ERROR_BIT).spec_slice() == s,
        WasmResult::spec_from_raw(s.spec_pack() | RESULT_ERROR_BIT).spec_is_err(),
{
    let p = s.ptr;
    let l = s.len;
    assert((((((p as u64) << 32) | (l as u64)) | 0x8000_0000_0000_0000u64)
        & 0x7fff_ffff_ffff_ffffu64) == (((p as u64) << 32) | (l as u64)) && ((((p as u64) << 32) | (
    l as u64)) | 0x8000_0000_0000_0000u64) & 0x8000_0000_0000_0000u64 != 0) by (bit_vector)
        requires
            p < 0x8000_0000u32,
    ;
    lemma_slice_pack_unpack(s);
}

} // verus!
