//! Envelope codec: framing payloads with the 12-byte header and unframing
//! them again, together with little-endian byte-stream encoder and decoder
//! helpers.

use crate::checksum::compute_checksum;
use crate::checksum::crc32_of;
use crate::envelope::EnvelopeHeader;
use crate::envelope::HEADER_SIZE;
use crate::error::DeserializeError;
use crate::error::SerializeError;
use crate::error::WasmError;
use crate::slice::WasmSlice;
use crate::MAGIC;
use crate::PROTOCOL_VERSION;
use vstd::bytes::spec_u16_from_le_bytes;
use vstd::bytes::spec_u16_to_le_bytes;
use vstd::bytes::spec_u32_from_le_bytes;
use vstd::bytes::spec_u32_to_le_bytes;
use vstd::bytes::spec_u64_from_le_bytes;
use vstd::bytes::spec_u64_to_le_bytes;
use vstd::bytes::u16_from_le_bytes;
use vstd::bytes::u16_to_le_bytes;
use vstd::bytes::u32_from_le_bytes;
use vstd::bytes::u32_to_le_bytes;
use vstd::bytes::u64_from_le_bytes;
use vstd::bytes::u64_to_le_bytes;
use vstd::prelude::*;
use vstd::slice::slice_subrange;
use vstd::slice::slice_to_vec;
use vstd::std_specs::vec::vec_index_mut;

verus! {

broadcast use vstd::std_specs::vec::axiom_spec_len;

/// Write the bytes of `src` into `dst` starting at `at`, leaving the rest of
/// `dst` unchanged.
pub(crate) fn copy_into(dst: &mut Vec<u8>, at: usize, src: &[u8])
    requires
        at + src@.len() <= old(dst)@.len(),
    ensures
        final(dst)@.len() == old(dst)@.len(),
        final(dst)@ == old(dst)@.take(at as int) + src@ + old(dst)@.skip(at + src@.len()),
{
    let cap = dst.len();
    let mut i: usize = 0;
    while i < src.len()
        invariant
            at + src@.len() <= cap,
            i <= src@.len(),
            dst@.len() == cap,
            cap == old(dst)@.len(),
            dst@ == old(dst)@.take(at as int) + src@.take(i as int) + old(dst)@.skip(at + i),
        decreases src@.len() - i,
    {
        let b = *vstd::slice::slice_index_get(src, i);
        *vec_index_mut(dst, at + i) = b;
        proof {
            assert(dst@ =~= old(dst)@.take(at as int) + src@.take(i + 1) + old(dst)@.skip(
                at + i + 1,
            ));
        }
        i = i + 1;
    }
    proof {
        assert(src@.take(src@.len() as int) =~= src@);
    }
}

/// Encoder for boundary messages: fills an owned buffer of fixed size from
/// the front, in little-endian order.
pub struct Encoder {
    buffer: Vec<u8>,
    position: usize,
}

impl Encoder {
    /// The buffer contents.
    pub closed spec fn spec_buffer(&self) -> Seq<u8> {
        self.buffer@
    }

    /// How many bytes have been written.
    pub closed spec fn spec_position(&self) -> int {
        self.position as int
    }

    /// The write position never passes the end of the buffer.
    pub open spec fn wf(&self) -> bool {
        0 <= self.spec_position() <= self.spec_buffer().len()
    }

    /// Create a new encoder over the given buffer.
    pub fn new(buffer: Vec<u8>) -> (r: Encoder)
        ensures
            r.spec_buffer() == buffer@,
            r.spec_position() == 0,
            r.wf(),
    {
        Encoder { buffer, position: 0 }
    }

    /// Get the remaining capacity.
    pub fn remaining(&self) -> (r: usize)
        requires
            self.wf(),
        ensures
            r == self.spec_buffer().len() - self.spec_position(),
    {
        self.buffer.len() - self.position
    }

    /// Get the current position.
    pub fn position(&self) -> (r: usize)
        ensures
            r == self.spec_position(),
    {
        self.position
    }

    /// Write bytes at the current position. Fails with `BufferTooSmall`,
    /// leaving the encoder unchanged, when the remaining capacity is too
    /// small.
    pub fn write_bytes(&mut self, bytes: &[u8]) -> (r: Result<(), WasmError>)
        requires
            old(self).wf(),
        ensures
            final(self).wf(),
            final(self).spec_buffer().len() == old(self).spec_buffer().len(),
            old(self).spec_buffer().len() - old(self).spec_position() >= bytes@.len() ==> {
                &&& r is Ok
                &&& final(self).spec_position() == old(self).spec_position() + bytes@.len()
                &&& final(self).spec_buffer() == old(self).spec_buffer().take(
                    old(self).spec_position(),
                ) + bytes@ + old(self).spec_buffer().skip(
                    old(self).spec_position() + bytes@.len(),
                )
            },
            old(self).spec_buffer().len() - old(self).spec_position() < bytes@.len() ==> {
                &&& r == Result::<(), WasmError>::Err(
                    WasmError::Serialize(
                        SerializeError::BufferTooSmall {
                            needed: bytes@.len() as usize,
                            available: (old(self).spec_buffer().len() - old(
                                self,
                            ).spec_position()) as usize,
                        },
                    ),
                )
                &&& *final(self) == *old(self)
            },
    {
        if self.buffer.len() - self.position < bytes.len() {
            return Err(
                WasmError::Serialize(
                    SerializeError::BufferTooSmall {
                        needed: bytes.len(),
                        available: self.buffer.len() - self.position,
                    },
                ),
            );
        }
        copy_into(&mut self.buffer, self.position, bytes);
        self.position = self.position + bytes.len();
        Ok(())
    }

    /// Write one byte.
    pub fn write_u8(&mut self, value: u8) -> (r: Result<(), WasmError>)
        requires
            old(self).wf(),
        ensures
            final(self).wf(),
            final(self).spec_buffer().len() == old(self).spec_buffer().len(),
            old(self).spec_buffer().len() - old(self).spec_position() >= 1 ==> {
                &&& r is Ok
                &&& final(self).spec_position() == old(self).spec_position() + 1
                &&& final(self).spec_buffer() == old(self).spec_buffer().take(
                    old(self).spec_position(),
                ) + seq![value] + old(self).spec_buffer().skip(old(self).spec_position() + 1)
            },
            old(self).spec_buffer().len() - old(self).spec_position() < 1 ==> {
                &&& r == Result::<(), WasmError>::Err(
                    WasmError::Serialize(
                        SerializeError::BufferTooSmall {
                            needed: 1usize,
                            available: (old(self).spec_buffer().len() - old(
                                self,
                            ).spec_position()) as usize,
                        },
                    ),
                )
                &&& *final(self) == *old(self)
            },
    {
        let buf: [u8; 1] = [value];
        proof {
            assert(buf@ =~= seq![value]);
        }
        self.write_bytes(buf.as_slice())
    }

    /// Write a u16, little-endian.
    pub fn write_u16(&mut self, value: u16) -> (r: Result<(), WasmError>)
        requires
            old(self).wf(),
        ensures
            final(self).wf(),
            final(self).spec_buffer().len() == old(self).spec_buffer().len(),
            old(self).spec_buffer().len() - old(self).spec_position() >= 2 ==> {
                &&& r is Ok
                &&& final(self).spec_position() == old(self).spec_position() + 2
                &&& final(self).spec_buffer() == old(self).spec_buffer().take(
                    old(self).spec_position(),
                ) + spec_u16_to_le_bytes(value) + old(self).spec_buffer().skip(
                    old(self).spec_position() + 2,
                )
            },
            old(self).spec_buffer().len() - old(self).spec_position() < 2 ==> {
                &&& r == Result::<(), WasmError>::Err(
                    WasmError::Serialize(
                        SerializeError::BufferTooSmall {
                            needed: 2usize,
                            available: (old(self).spec_buffer().len() - old(
                                self,
                            ).spec_position()) as usize,
                        },
                    ),
                )
                &&& *final(self) == *old(self)
            },
    {
        let bytes = u16_to_le_bytes(value);
        self.write_bytes(bytes.as_slice())
    }

    /// Write a u32, little-endian.
    pub fn write_u32(&mut self, value: u32) -> (r: Result<(), WasmError>)
        requires
            old(self).wf(),
        ensures
            final(self).wf(),
            final(self).spec_buffer().len() == old(self).spec_buffer().len(),
            old(self).spec_buffer().len() - old(self).spec_position() >= 4 ==> {
                &&& r is Ok
                &&& final(self).spec_position() == old(self).spec_position() + 4
                &&& final(self).spec_buffer() == old(self).spec_buffer().take(
                    old(self).spec_position(),
                ) + spec_u32_to_le_bytes(value) + old(self).spec_buffer().skip(
                    old(self).spec_position() + 4,
                )
            },
            old(self).spec_buffer().len() - old(self).spec_position() < 4 ==> {
                &&& r == Result::<(), WasmError>::Err(
                    WasmError::Serialize(
                        SerializeError::BufferTooSmall {
                            needed: 4usize,
                            available: (old(self).spec_buffer().len() - old(
                                self,
                            ).spec_position()) as usize,
                        },
                    ),
                )
                &&& *final(self) == *old(self)
            },
    {
        let bytes = u32_to_le_bytes(value);
        self.write_bytes(bytes.as_slice())
    }

    /// Write a u64, little-endian.
    pub fn write_u64(&mut self, value: u64) -> (r: Result<(), WasmError>)
        requires
            old(self).wf(),
        ensures
            final(self).wf(),
            final(self).spec_buffer().len() == old(self).spec_buffer().len(),
            old(self).spec_buffer().len() - old(self).spec_position() >= 8 ==> {
                &&& r is Ok
                &&& final(self).spec_position() == old(self).spec_position() + 8
                &&& final(self).spec_buffer() == old(self).spec_buffer().take(
                    old(self).spec_position(),
                ) + spec_u64_to_le_bytes(value) + old(self).spec_buffer().skip(
                    old(self).spec_position() + 8,
                )
            },
            old(self).spec_buffer().len() - old(self).spec_position() < 8 ==> {
                &&& r == Result::<(), WasmError>::Err(
                    WasmError::Serialize(
                        SerializeError::BufferTooSmall {
                            needed: 8usize,
                            available: (old(self).spec_buffer().len() - old(
                                self,
                            ).spec_position()) as usize,
                        },
                    ),
                )
                &&& *final(self) == *old(self)
            },
    {
        let bytes = u64_to_le_bytes(value);
        self.write_bytes(bytes.as_slice())
    }

    /// Finish encoding: return the written prefix of the buffer.
    pub fn finish(self) -> (r: Vec<u8>)
        requires
            self.wf(),
        ensures
            r@ == self.spec_buffer().take(self.spec_position()),
    {
        let Encoder { mut buffer, position } = self;
        buffer.truncate(position);
        buffer
    }
}

/// Decoder for boundary messages: reads a byte slice from the front, in
/// little-endian order.
pub struct Decoder<'a> {
    buffer: &'a [u8],
    position: usize,
}

impl<'a> Decoder<'a> {
    /// The buffer contents.
    pub closed spec fn spec_buffer(&self) -> Seq<u8> {
        self.buffer@
    }

    /// How many bytes have been consumed.
    pub closed spec fn spec_position(&self) -> int {
        self.position as int
    }

    /// The read position never passes the end of the buffer.
    pub open spec fn wf(&self) -> bool {
        0 <= self.spec_position() <= self.spec_buffer().len()
    }

    /// Create a new decoder over the given bytes.
    pub fn new(buffer: &'a [u8]) -> (r: Decoder<'a>)
        ensures
            r.spec_buffer() == buffer@,
            r.spec_position() == 0,
            r.wf(),
    {
        Decoder { buffer, position: 0 }
    }

    /// Get the number of unread bytes.
    pub fn remaining(&self) -> (r: usize)
        requires
            self.wf(),
        ensures
            r == self.spec_buffer().len() - self.spec_position(),
    {
        self.buffer.len() - self.position
    }

    /// Get the current position.
    pub fn position(&self) -> (r: usize)
        ensures
            r == self.spec_position(),
    {
        self.position
    }

    /// Read `len` bytes. Fails with `UnexpectedEof`, leaving the decoder
    /// unchanged, when fewer remain.
    pub fn read_bytes(&mut self, len: usize) -> (r: Result<&'a [u8], WasmError>)
        requires
            old(self).wf(),
        ensures
            final(self).wf(),
            final(self).spec_buffer() == old(self).spec_buffer(),
            old(self).spec_buffer().len() - old(self).spec_position() >= len ==> {
                &&& r matches Ok(bytes) && bytes@ == old(self).spec_buffer().subrange(
                    old(self).spec_position(),
                    old(self).spec_position() + len,
                )
                &&& final(self).spec_position() == old(self).spec_position() + len
            },
            old(self).spec_buffer().len() - old(self).spec_position() < len ==> {
                &&& r == Result::<&'a [u8], WasmError>::Err(
                    WasmError::Deserialize(DeserializeError::UnexpectedEof),
                )
                &&& *final(self) == *old(self)
            },
    {
        if self.buffer.len() - self.position < len {
            return Err(WasmError::Deserialize(DeserializeError::UnexpectedEof));
        }
        let bytes = slice_subrange(self.buffer, self.position, self.position + len);
        self.position = self.position + len;
        Ok(bytes)
    }

    /// Read one byte.
    pub fn read_u8(&mut self) -> (r: Result<u8, WasmError>)
        requires
            old(self).wf(),
        ensures
            final(self).wf(),
            final(self).spec_buffer() == old(self).spec_buffer(),
            old(self).spec_buffer().len() - old(self).spec_position() >= 1 ==> {
                &&& r matches Ok(v) && v == old(self).spec_buffer()[old(self).spec_position()]
                &&& final(self).spec_position() == old(self).spec_position() + 1
            },
            old(self).spec_buffer().len() == old(self).spec_position() ==> {
                &&& r == Result::<u8, WasmError>::Err(
                    WasmError::Deserialize(DeserializeError::UnexpectedEof),
                )
                &&& *final(self) == *old(self)
            },
    {
        let bytes = self.read_bytes(1)?;
        Ok(*vstd::slice::slice_index_get(bytes, 0))
    }

    /// Read a u16, little-endian.
    pub fn read_u16(&mut self) -> (r: Result<u16, WasmError>)
        requires
            old(self).wf(),
        ensures
            final(self).wf(),
            final(self).spec_buffer() == old(self).spec_buffer(),
            old(self).spec_buffer().len() - old(self).spec_position() >= 2 ==> {
                &&& r matches Ok(v) && v == spec_u16_from_le_bytes(
                    old(self).spec_buffer().subrange(
                        old(self).spec_position(),
                        old(self).spec_position() + 2,
                    ),
                )
                &&& final(self).spec_position() == old(self).spec_position() + 2
            },
            old(self).spec_buffer().len() - old(self).spec_position() < 2 ==> {
                &&& r == Result::<u16, WasmError>::Err(
                    WasmError::Deserialize(DeserializeError::UnexpectedEof),
                )
                &&& *final(self) == *old(self)
            },
    {
        let bytes = self.read_bytes(2)?;
        Ok(u16_from_le_bytes(bytes))
    }

    /// Read a u32, little-endian.
    pub fn read_u32(&mut self) -> (r: Result<u32, WasmError>)
        requires
            old(self).wf(),
        ensures
            final(self).wf(),
            final(self).spec_buffer() == old(self).spec_buffer(),
            old(self).spec_buffer().len() - old(self).spec_position() >= 4 ==> {
                &&& r matches Ok(v) && v == spec_u32_from_le_bytes(
                    old(self).spec_buffer().subrange(
                        old(self).spec_position(),
                        old(self).spec_position() + 4,
                    ),
                )
                &&& final(self).spec_position() == old(self).spec_position() + 4
            },
            old(self).spec_buffer().len() - old(self).spec_position() < 4 ==> {
                &&& r == Result::<u32, WasmError>::Err(
                    WasmError::Deserialize(DeserializeError::UnexpectedEof),
                )
                &&& *final(self) == *old(self)
            },
    {
        let bytes = self.read_bytes(4)?;
        Ok(u32_from_le_bytes(bytes))
    }

    /// Read a u64, little-endian.
    pub fn read_u64(&mut self) -> (r: Result<u64, WasmError>)
        requires
            old(self).wf(),
        ensures
            final(self).wf(),
            final(self).spec_buffer() == old(self).spec_buffer(),
            old(self).spec_buffer().len() - old(self).spec_position() >= 8 ==> {
                &&& r matches Ok(v) && v == spec_u64_from_le_bytes(
                    old(self).spec_buffer().subrange(
                        old(self).spec_position(),
                        old(self).spec_position() + 8,
                    ),
                )
                &&& final(self).spec_position() == old(self).spec_position() + 8
            },
            old(self).spec_buffer().len() - old(self).spec_position() < 8 ==> {
                &&& r == Result::<u64, WasmError>::Err(
                    WasmError::Deserialize(DeserializeError::UnexpectedEof),
                )
                &&& *final(self) == *old(self)
            },
    {
        let bytes = self.read_bytes(8)?;
        Ok(u64_from_le_bytes(bytes))
    }

    /// Get the unread rest of the buffer.
    pub fn remaining_slice(&self) -> (r: &'a [u8])
        requires
            self.wf(),
        ensures
            r@ == self.spec_buffer().skip(self.spec_position()),
    {
        slice_subrange(self.buffer, self.position, self.buffer.len())
    }
}

/// The header that frames a payload: current magic and version, the given
/// flags, the payload's length and its CRC32.
pub open spec fn spec_envelope_header(payload: Seq<u8>, flags: u8) -> EnvelopeHeader {
    EnvelopeHeader {
        magic: MAGIC,
        version: PROTOCOL_VERSION,
        flags,
        payload_len: payload.len() as u32,
        checksum: crc32_of(payload),
    }
}

/// The full wire form of a framed payload: the 12 header bytes, then the
/// payload.
pub open spec fn spec_envelope_bytes(payload: Seq<u8>, flags: u8) -> Seq<u8> {
    spec_envelope_header(payload, flags).spec_bytes() + payload
}

/// Encode a payload with an envelope header into the front of `output`,
/// returning the total number of bytes written.
pub fn encode_with_envelope(payload: &[u8], flags: u8, output: &mut Vec<u8>) -> (r: Result<
    usize,
    WasmError,
>)
    requires
        payload@.len() + HEADER_SIZE <= u32::MAX,
    ensures
        final(output)@.len() == old(output)@.len(),
        old(output)@.len() >= HEADER_SIZE + payload@.len() ==> {
            &&& r == Result::<usize, WasmError>::Ok((HEADER_SIZE + payload@.len()) as usize)
            &&& final(output)@ == spec_envelope_bytes(payload@, flags) + old(output)@.skip(
                HEADER_SIZE + payload@.len(),
            )
        },
        old(output)@.len() < HEADER_SIZE + payload@.len() ==> {
            &&& r == Result::<usize, WasmError>::Err(
                WasmError::Serialize(
                    SerializeError::BufferTooSmall {
                        needed: (HEADER_SIZE + payload@.len()) as usize,
                        available: old(output)@.len() as usize,
                    },
                ),
            )
            &&& final(output)@ == old(output)@
        },
{
    let total_size = HEADER_SIZE + payload.len();
    if output.len() < total_size {
        return Err(
            WasmError::Serialize(
                SerializeError::BufferTooSmall { needed: total_size, available: output.len() },
            ),
        );
    }
    let checksum = compute_checksum(payload);
    let header = EnvelopeHeader::new(payload.len() as u32, checksum, flags);
    let header_bytes = header.to_bytes();
    copy_into(output, 0, header_bytes.as_slice());
    copy_into(output, HEADER_SIZE, payload);
    proof {
        assert(output@ =~= spec_envelope_bytes(payload@, flags) + old(output)@.skip(
            HEADER_SIZE + payload@.len(),
        ));
    }
    Ok(total_size)
}

/// Encode a payload into a buffer that sits at `buffer_ptr` in guest memory,
/// and describe the encoded region as a slice.
pub fn encode_to_slice(payload: &[u8], buffer: &mut Vec<u8>, buffer_ptr: u32) -> (r: Result<
    WasmSlice,
    WasmError,
>)
    requires
        payload@.len() + HEADER_SIZE <= u32::MAX,
    ensures
        final(buffer)@.len() == old(buffer)@.len(),
        old(buffer)@.len() >= HEADER_SIZE + payload@.len() ==> {
            &&& r == Result::<WasmSlice, WasmError>::Ok(
                WasmSlice {
                    ptr: buffer_ptr,
                    len: (HEADER_SIZE + payload@.len()) as u32,
                },
            )
            &&& final(buffer)@ == spec_envelope_bytes(payload@, 0) + old(buffer)@.skip(
                HEADER_SIZE + payload@.len(),
            )
        },
        old(buffer)@.len() < HEADER_SIZE + payload@.len() ==> {
            &&& r == Result::<WasmSlice, WasmError>::Err(
                WasmError::Serialize(
                    SerializeError::BufferTooSmall {
                        needed: (HEADER_SIZE + payload@.len()) as usize,
                        available: old(buffer)@.len() as usize,
                    },
                ),
            )
            &&& final(buffer)@ == old(buffer)@
        },
{
    let len = encode_with_envelope(payload, 0, buffer)?;
    Ok(WasmSlice::new(buffer_ptr, len as u32))
}

/// Decoded envelope: the parsed header and a copy of the payload region.
pub struct DecodedEnvelope {
    /// The envelope header.
    pub header: EnvelopeHeader,
    /// The payload bytes.
    pub payload: Vec<u8>,
}

/// What decoding a buffer yields: the parsed header and payload region, or
/// the error that the buffer's framing earns.
pub open spec fn spec_decode(buffer: Seq<u8>) -> Result<(EnvelopeHeader, Seq<u8>), WasmError> {
    if buffer.len() < HEADER_SIZE {
        Err(WasmError::Deserialize(DeserializeError::UnexpectedEof))
    } else {
        let h = EnvelopeHeader::spec_from_bytes(buffer.subrange(0, HEADER_SIZE as int));
        if !h.spec_valid() {
            Err(WasmError::Deserialize(DeserializeError::InvalidFormat))
        } else if buffer.len() < HEADER_SIZE + h.payload_len {
            Err(WasmError::Deserialize(DeserializeError::UnexpectedEof))
        } else {
            let payload = buffer.subrange(HEADER_SIZE as int, HEADER_SIZE + h.payload_len);
            if crc32_of(payload) != h.checksum {
                Err(WasmError::Deserialize(DeserializeError::InvalidFormat))
            } else {
                Ok((h, payload))
            }
        }
    }
}

/// Decode an envelope from a buffer: parse and validate the header, check
/// the payload length and checksum, and copy the payload region out.
pub fn decode_envelope(buffer: &[u8]) -> (r: Result<DecodedEnvelope, WasmError>)
    ensures
        match spec_decode(buffer@) {
            Ok(hp) => r matches Ok(de) && de.header == hp.0 && de.payload@ == hp.1,
            Err(e) => r matches Err(e2) && e2 == e,
        },
{
    if buffer.len() < HEADER_SIZE {
        return Err(WasmError::Deserialize(DeserializeError::UnexpectedEof));
    }
    let header_bytes = slice_subrange(buffer, 0, HEADER_SIZE);
    let header = EnvelopeHeader::from_bytes(header_bytes);
    if let Err(_) = header.validate() {
        return Err(WasmError::Deserialize(DeserializeError::InvalidFormat));
    }
    let payload_len = header.payload_len as usize;
    if buffer.len() - HEADER_SIZE < payload_len {
        return Err(WasmError::Deserialize(DeserializeError::UnexpectedEof));
    }
    let payload_slice = slice_subrange(buffer, HEADER_SIZE, HEADER_SIZE + payload_len);
    let actual_checksum = compute_checksum(payload_slice);
    if actual_checksum != header.checksum {
        return Err(WasmError::Deserialize(DeserializeError::InvalidFormat));
    }
    let payload = slice_to_vec(payload_slice);
    Ok(DecodedEnvelope { header, payload })
}

/// Decode a payload directly, without an envelope: the buffer is the
/// payload.
pub fn decode_raw(buffer: &[u8]) -> (r: &[u8])
    ensures
        r@ == buffer@,
{
    buffer
}

/// Decoding what encoding produced recovers the payload exactly, under the
/// header that `encode_with_envelope` writes: the given flags, the payload's
/// length and its CRC32.
pub proof fn lemma_encode_decode_round_trip(payload: Seq<u8>, flags: u8)
    requires
        payload.len() + HEADER_SIZE <= u32::MAX,
    ensures
        spec_decode(spec_envelope_bytes(payload, flags)) == Ok::<_, WasmError>(
            (spec_envelope_header(payload, flags), payload),
        ),
        spec_envelope_header(payload, flags).flags == flags,
        spec_envelope_header(payload, flags).payload_len == payload.len(),
        spec_envelope_header(payload, flags).checksum == crc32_of(payload),
{
    let h = spec_envelope_header(payload, flags);
    let buffer = spec_envelope_bytes(payload, flags);
    crate::envelope::lemma_header_bytes_round_trip(h);
    assert(buffer.subrange(0, HEADER_SIZE as int) =~= h.spec_bytes());
    assert(buffer.subrange(HEADER_SIZE as int, HEADER_SIZE + h.payload_len) =~= payload);
}

/// A buffer framed under a valid header whose stored checksum is not the
/// CRC32 of its payload region fails to decode with `InvalidFormat`.
pub proof fn lemma_decode_rejects_checksum_mismatch(h: EnvelopeHeader, payload: Seq<u8>)
    requires
        h.spec_valid(),
        h.payload_len == payload.len(),
        crc32_of(payload) != h.checksum,
    ensures
        spec_decode(h.spec_bytes() + payload) == Err::<(EnvelopeHeader, Seq<u8>), _>(
            WasmError::Deserialize(DeserializeError::InvalidFormat),
        ),
{
    let buffer = h.spec_bytes() + payload;
    crate::envelope::lemma_header_bytes_round_trip(h);
    assert(buffer.subrange(0, HEADER_SIZE as int) =~= h.spec_bytes());
    assert(buffer.subrange(HEADER_SIZE as int, HEADER_SIZE + h.payload_len) =~= payload);
}

/// A framed buffer whose payload region was replaced by bytes with a
/// different CRC32 fails to decode with `InvalidFormat`: the checksum stored
/// in the header no longer matches the payload region.
pub proof fn lemma_decode_rejects_corrupt_payload(payload: Seq<u8>, flags: u8, corrupt: Seq<u8>)
    requires
        payload.len() + HEADER_SIZE <= u32::MAX,
        corrupt.len() == payload.len(),
        crc32_of(corrupt) != crc32_of(payload),
    ensures
        spec_decode(spec_envelope_header(payload, flags).spec_bytes() + corrupt) == Err::<
            (EnvelopeHeader, Seq<u8>),
            _,
        >(WasmError::Deserialize(DeserializeError::InvalidFormat)),
{
    lemma_decode_rejects_checksum_mismatch(spec_envelope_header(payload, flags), corrupt);
}

} // verus!
