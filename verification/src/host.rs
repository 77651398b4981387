//! Host-side transfer primitives and the host's reading of guest returns:
//! bounds-checked copies in and out of guest memory, framing of results
//! handed back to the guest, and the interpretation of the packed value a
//! guest export returns.

use crate::codec::copy_into;
use crate::codec::decode_envelope;
use crate::codec::encode_with_envelope;
use crate::codec::spec_decode;
use crate::codec::spec_envelope_bytes;
use crate::decimal::spec_decimal;
use crate::decimal::u64_to_string;
use crate::envelope::HEADER_SIZE;
use crate::host_error::HostError;
use crate::slice::WasmResult;
use crate::slice::WasmSlice;
use vstd::prelude::*;
use vstd::string::StringExecFns;

verus! {

broadcast use vstd::std_specs::vec::axiom_spec_len, crate::slice::lemma_from_raw_inverse;

/// The message of an out-of-bounds memory access:
/// `out of bounds: <start>..<end> > <max>`.
pub open spec fn spec_oob_message(start: int, end: int, max: int) -> Seq<char> {
    "out of bounds: "@ + spec_decimal(start) + ".."@ + spec_decimal(end) + " > "@ + spec_decimal(
        max,
    )
}

fn oob_message(start: u64, end: u64, max: u64) -> (r: String)
    ensures
        r@ == spec_oob_message(start as int, end as int, max as int),
{
    let mut s = "out of bounds: ".to_owned();
    let start_str = u64_to_string(start);
    s.append(start_str.as_str());
    s.append("..");
    let end_str = u64_to_string(end);
    s.append(end_str.as_str());
    s.append(" > ");
    let max_str = u64_to_string(max);
    s.append(max_str.as_str());
    s
}

/// Copy bytes out of guest memory: `len` bytes starting at `ptr`, after
/// checking that the region lies inside the memory.
pub fn consume_bytes_from_guest(memory: &[u8], ptr: u32, len: u32) -> (r: Result<
    Vec<u8>,
    HostError,
>)
    ensures
        ptr + len <= memory@.len() ==> (r matches Ok(v) && v@ == memory@.subrange(
            ptr as int,
            ptr + len,
        )),
        ptr + len > memory@.len() ==> (r matches Err(HostError::MemoryAccess(m)) && m@
            == spec_oob_message(ptr as int, ptr + len, memory@.len() as int)),
{
    let total = memory.len();
    let start = ptr as usize;
    let end_wide: u64 = ptr as u64 + len as u64;
    if end_wide > total as u64 {
        return Err(
            HostError::MemoryAccess(oob_message(ptr as u64, end_wide, total as u64)),
        );
    }
    let end = start + len as usize;
    Ok(vstd::slice::slice_to_vec(vstd::slice::slice_subrange(memory, start, end)))
}

/// Copy bytes into guest memory at a fixed offset, after checking that the
/// region lies inside the memory, and describe the written region as a
/// slice.
pub fn move_data_to_guest(memory: &mut Vec<u8>, ptr: u32, data: &[u8]) -> (r: Result<
    WasmSlice,
    HostError,
>)
    requires
        data@.len() <= u32::MAX,
    ensures
        ptr + data@.len() <= old(memory)@.len() ==> {
            &&& r == Result::<WasmSlice, HostError>::Ok(
                WasmSlice { ptr, len: data@.len() as u32 },
            )
            &&& final(memory)@ == old(memory)@.take(ptr as int) + data@ + old(memory)@.skip(
                ptr + data@.len(),
            )
        },
        ptr + data@.len() > old(memory)@.len() ==> {
            &&& (r matches Err(HostError::MemoryAccess(m)) && m@ == spec_oob_message(
                ptr as int,
                ptr + data@.len(),
                old(memory)@.len() as int,
            ))
            &&& final(memory)@ == old(memory)@
        },
{
    let total = memory.len();
    let end_wide: u64 = ptr as u64 + data.len() as u64;
    if end_wide > total as u64 {
        return Err(
            HostError::MemoryAccess(oob_message(ptr as u64, end_wide, total as u64)),
        );
    }
    copy_into(memory, ptr as usize, data);
    Ok(WasmSlice::new(ptr, data.len() as u32))
}

/// Frame a result for handing back to the guest: an envelope whose error
/// flag mirrors `is_error`.
pub fn build_guest_result(data: &[u8], is_error: bool) -> (r: Result<Vec<u8>, HostError>)
    requires
        data@.len() + 64 <= usize::MAX,
        data@.len() + HEADER_SIZE <= u32::MAX,
    ensures
        r matches Ok(v) && v@ == spec_envelope_bytes(
            data@,
            if is_error {
                8u8
            } else {
                0u8
            },
        ),
{
    let flags: u8 = if is_error {
        8
    } else {
        0
    };
    let mut buffer: Vec<u8> = vec![0u8; data.len() + 64];
    let len = match encode_with_envelope(data, flags, &mut buffer) {
        Ok(len) => len,
        Err(e) => {
            return Err(HostError::Serialization(e.describe()));
        },
    };
    buffer.truncate(len);
    proof {
        assert(buffer@ =~= spec_envelope_bytes(
            data@,
            if is_error {
                8u8
            } else {
                0u8
            },
        ));
    }
    Ok(buffer)
}

/// The text std recovers from bytes when decoding them as UTF-8 with
/// replacement; a function of the bytes alone.
pub uninterp spec fn utf8_lossy_of(bytes: Seq<u8>) -> Seq<char>;

/// Relies on String::from_utf8_lossy: the text decoded from the bytes, with
/// invalid sequences replaced, a function of the bytes alone.
#[verifier::external_body]
fn utf8_lossy(bytes: &[u8]) -> (r: String)
    ensures
        r@ == utf8_lossy_of(bytes@),
{
    String::from_utf8_lossy(bytes).to_string()
}

/// The host's first reading of a guest export's packed return value: an
/// empty slice with the error bit set is an empty guest error, an empty
/// slice without it carries an empty result, and anything else names the
/// region of guest memory to read the response from.
pub fn classify_guest_return(raw: u64) -> (r: Result<Option<WasmSlice>, HostError>)
    ensures
        WasmResult::spec_from_raw(raw).spec_slice().len == 0
            ==> if WasmResult::spec_from_raw(raw).spec_is_err() {
            r matches Err(HostError::GuestError(m)) && m@ == "empty error"@
        } else {
            r == Result::<Option<WasmSlice>, HostError>::Ok(Option::None)
        },
        WasmResult::spec_from_raw(raw).spec_slice().len != 0 ==> r == Result::<
            Option<WasmSlice>,
            HostError,
        >::Ok(Option::Some(WasmResult::spec_from_raw(raw).spec_slice())),
{
    let wasm_result = WasmResult::from_raw(raw);
    let result_slice = wasm_result.slice();
    if result_slice.is_empty() {
        if wasm_result.is_err() {
            return Err(HostError::GuestError("empty error".to_owned()));
        }
        return Ok(None);
    }
    Ok(Some(result_slice))
}

/// The region a bare packed result addresses, when it addresses one: the
/// error bit plays no part here, and an empty slice means there is nothing
/// to read.
pub fn response_region(raw: u64) -> (r: Option<WasmSlice>)
    ensures
        WasmResult::spec_from_raw(raw).spec_slice().len == 0 ==> r is None,
        WasmResult::spec_from_raw(raw).spec_slice().len != 0 ==> r == Option::Some(
            WasmResult::spec_from_raw(raw).spec_slice(),
        ),
{
    let slice = WasmResult::from_raw(raw).slice();
    if slice.is_empty() {
        None
    } else {
        Some(slice)
    }
}

/// The host's reading of the response bytes a guest export pointed at:
/// decode the envelope, and treat an error result or error-flagged envelope
/// as a guest error carrying the payload as its message.
pub fn decode_guest_response(raw_is_err: bool, response: &[u8]) -> (r: Result<Vec<u8>, HostError>)
    ensures
        match spec_decode(response@) {
            Err(e) => r matches Err(HostError::Deserialization(m)) && m@ == e.spec_describe(),
            Ok(hp) => if raw_is_err || hp.0.flags & 8 != 0 {
                r matches Err(HostError::GuestError(m)) && m@ == utf8_lossy_of(hp.1)
            } else {
                r matches Ok(v) && v@ == hp.1
            },
        },
{
    let envelope = match decode_envelope(response) {
        Ok(envelope) => envelope,
        Err(e) => {
            return Err(HostError::Deserialization(e.describe()));
        },
    };
    if raw_is_err || envelope.header.is_error() {
        return Err(HostError::GuestError(utf8_lossy(envelope.payload.as_slice())));
    }
    Ok(envelope.payload)
}

/// Serialised bytes crossing the boundary on the host side.
#[derive(Clone, Debug, PartialEq, Eq)]
pub struct ExternIO(pub Vec<u8>);

impl ExternIO {
    /// Wrap raw bytes.
    pub fn new(bytes: Vec<u8>) -> (r: ExternIO)
        ensures
            r.0@ == bytes@,
    {
        ExternIO(bytes)
    }

    /// Unwrap into the raw bytes.
    pub fn into_vec(self) -> (r: Vec<u8>)
        ensures
            r@ == self.0@,
    {
        self.0
    }

    /// Borrow the raw bytes.
    pub fn as_bytes(&self) -> (r: &[u8])
        ensures
            r@ == self.0@,
    {
        self.0.as_slice()
    }
}

} // verus!
