//! Core of an embedded WebAssembly execution runtime: the envelope wire
//! format framing every payload that crosses the host/guest boundary, the
//! packed pointer/length result value returned by guest exports, the
//! guest-side arena allocator, the host-side module cache, and the call
//! protocol tying them together.

use vstd::prelude::*;

mod arena;
mod checksum;
mod compat;
mod codec;
mod decimal;
mod error;
mod envelope;
mod engine;
mod env;
mod guest;
mod host;
mod host_error;
mod instance;
mod module;
mod slice;
mod traits;

pub use compat::return_err_ptr;
pub use compat::return_serialized_ptr;
pub use compat::rmp_error_bytes;
pub use compat::SerializedBytes;
pub use traits::GuestFunction;
pub use traits::HostFunction;
pub use traits::WasmDecode;
pub use traits::WasmEncode;
pub use traits::WasmPrimitive;
pub use arena::arena_alloc;
pub use arena::arena_alloc_copy;
pub use arena::arena_reset;
pub use arena::GuestArena;
pub use codec::decode_envelope;
pub use codec::decode_raw;
pub use codec::encode_to_slice;
pub use codec::encode_with_envelope;
pub use codec::lemma_decode_rejects_checksum_mismatch;
pub use codec::lemma_decode_rejects_corrupt_payload;
pub use codec::lemma_encode_decode_round_trip;
pub use codec::spec_decode;
pub use codec::spec_envelope_bytes;
pub use codec::spec_envelope_header;
pub use codec::DecodedEnvelope;
pub use codec::Decoder;
pub use codec::Encoder;
pub use checksum::compute_checksum;
pub use checksum::crc32_of;
pub use checksum::verify_checksum;
pub use error::DeserializeError;
pub use error::ErrorKind;
pub use error::ErrorMessage;
pub use error::GuestCallError;
pub use error::HostCallError;
pub use error::MemoryError;
pub use error::SerializeError;
pub use error::WasmError;
pub use error::WasmErrorInner;
pub use error::WasmErrorInnerBuilder;
pub use error::WasmErrorInnerBuilderWithLocation;
pub use envelope::EnvelopeError;
pub use envelope::EnvelopeFlags;
pub use envelope::EnvelopeHeader;
pub use envelope::HEADER_SIZE;
pub use env::Env;
pub use engine::EngineConfig;
pub use engine::WasmEngine;
pub use instance::call;
pub use instance::call_raw;
pub use instance::WasmInstance;
pub use instance::CALL_INPUT_OFFSET;
pub use module::hex_encode;
pub use module::ModuleCache;
pub use host::build_guest_result;
pub use host::classify_guest_return;
pub use host::consume_bytes_from_guest;
pub use host::decode_guest_response;
pub use host::move_data_to_guest;
pub use host::response_region;
pub use host::spec_oob_message;
pub use host::utf8_lossy_of;
pub use host::ExternIO;
pub use host_error::HostError;
pub use guest::encode_host_call_args;
pub use guest::host_args;
pub use guest::ERROR_BUFFER_SIZE;
pub use guest::RETURN_BUFFER_SIZE;
pub use guest::host_args_envelope;
pub use guest::parse_host_call_result;
pub use guest::read_bytes;
pub use guest::return_bytes_ptr;
pub use guest::return_err;
pub use guest::return_ok;
pub use guest::spec_host_call_outcome;
pub use guest::unpack_host_result;
pub use decimal::spec_decimal;
pub use decimal::u64_to_string;
pub use decimal::usize_to_string;
pub use env::spec_bounds_message;
pub use envelope::lemma_header_bytes_round_trip;
pub use guest::spec_encoding_error_message;
pub use module::spec_hex;
pub use module::spec_hex_digit;
pub use slice::lemma_err_result_slice;
pub use slice::lemma_from_raw_inverse;
pub use slice::lemma_ok_result_slice;
pub use slice::lemma_result_round_trip;
pub use slice::lemma_slice_pack_unpack;
pub use slice::DoubleUSize;
pub use slice::RESULT_ERROR_BIT;
pub use slice::WasmRef;
pub use slice::WasmResult;
pub use slice::WasmSlice;

verus! {

/// Protocol version of the envelope wire format.
pub const PROTOCOL_VERSION: u8 = 1;

/// Magic bytes identifying envelope messages: "AI" (0x4149).
pub const MAGIC: u16 = 0x4149;

/// Default metering limit: 100 billion operations.
pub const DEFAULT_METERING_LIMIT: u64 = 100_000_000_000;

/// Guest pointer type (an offset into guest linear memory).
pub type GuestPtr = u32;

/// Length type for guest memory regions.
pub type Len = u32;

} // verus!
