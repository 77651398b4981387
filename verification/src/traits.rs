//! Traits for boundary serialisation: types that encode themselves into
//! byte buffers, types decoded from byte slices, and primitives that cross
//! the boundary as a single WASM value.

use crate::error::WasmError;
use crate::slice::WasmSlice;
use vstd::prelude::*;

verus! {

/// A type that can be encoded into a byte buffer for the boundary.
pub trait WasmEncode {
    /// Calculate the encoded size in bytes.
    fn encoded_size(&self) -> usize;

    /// Encode into the front of the buffer, returning the number of bytes
    /// written.
    fn encode_to(&self, buf: &mut Vec<u8>) -> Result<usize, WasmError>;
}

/// A type that can be decoded from boundary bytes.
pub trait WasmDecode: Sized {
    /// Decode from a byte slice.
    fn decode_from(buf: &[u8]) -> Result<Self, WasmError>;
}

/// A type that crosses the boundary as a single WASM value.
pub trait WasmPrimitive: Copy {
    /// The WASM value type this maps to.
    type WasmType: Copy;

    /// Convert to the WASM value.
    fn to_wasm(self) -> Self::WasmType;

    /// Convert from the WASM value.
    fn from_wasm(wasm: Self::WasmType) -> Self;
}

/// A host function that a guest can import and call.
pub trait HostFunction<Args, Ret> {
    /// The name of the function.
    const NAME: &'static str;

    /// Call the host function.
    fn call(&self, args: Args) -> Result<Ret, WasmError>;
}

/// A guest function that the host can call.
pub trait GuestFunction {
    /// The name of the function.
    const NAME: &'static str;

    /// The input type.
    type Input: WasmEncode;

    /// The output type.
    type Output: WasmDecode;
}

impl WasmPrimitive for u32 {
    type WasmType = u32;

    fn to_wasm(self) -> u32 {
        self
    }

    fn from_wasm(wasm: u32) -> Self {
        wasm
    }
}

impl WasmPrimitive for i32 {
    type WasmType = i32;

    fn to_wasm(self) -> i32 {
        self
    }

    fn from_wasm(wasm: i32) -> Self {
        wasm
    }
}

impl WasmPrimitive for u64 {
    type WasmType = u64;

    fn to_wasm(self) -> u64 {
        self
    }

    fn from_wasm(wasm: u64) -> Self {
        wasm
    }
}

impl WasmPrimitive for i64 {
    type WasmType = i64;

    fn to_wasm(self) -> i64 {
        self
    }

    fn from_wasm(wasm: i64) -> Self {
        wasm
    }
}

impl WasmPrimitive for bool {
    type WasmType = i32;

    fn to_wasm(self) -> i32 {
        if self {
            1
        } else {
            0
        }
    }

    fn from_wasm(wasm: i32) -> Self {
        wasm != 0
    }
}

impl WasmPrimitive for WasmSlice {
    type WasmType = u64;

    fn to_wasm(self) -> u64 {
        self.pack()
    }

    fn from_wasm(wasm: u64) -> Self {
        WasmSlice::unpack(wasm)
    }
}

} // verus!
