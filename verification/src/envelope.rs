//! Envelope wire format framing every payload that crosses the host/guest
//! boundary: a fixed 12-byte little-endian header carrying magic bytes, a
//! protocol version, option flags, the payload length and a CRC32 checksum.

use crate::MAGIC;
use crate::PROTOCOL_VERSION;
use vstd::bytes::lemma_auto_spec_u16_to_from_le_bytes;
use vstd::bytes::lemma_auto_spec_u32_to_from_le_bytes;
use vstd::bytes::spec_u16_from_le_bytes;
use vstd::bytes::spec_u16_to_le_bytes;
use vstd::bytes::spec_u32_from_le_bytes;
use vstd::bytes::spec_u32_to_le_bytes;
use vstd::bytes::u16_from_le_bytes;
use vstd::bytes::u16_to_le_bytes;
use vstd::bytes::u32_from_le_bytes;
use vstd::bytes::u32_to_le_bytes;
use vstd::prelude::*;
use vstd::slice::slice_subrange;

verus! {

/// Size of the envelope header in bytes.
pub const HEADER_SIZE: usize = 12;

/// Flags for envelope options.
#[derive(Clone, Copy, Debug, PartialEq, Eq, Structural)]
pub enum EnvelopeFlags {
    /// No special flags.
    NoFlags,
    /// Payload is compressed.
    Compressed,
    /// Payload is encrypted.
    Encrypted,
    /// Response expected (for async calls).
    ExpectsResponse,
    /// This is an error response.
    IsError,
}

impl EnvelopeFlags {
    /// The bit this flag occupies in the header's flag byte.
    pub open spec fn spec_bit(self) -> u8 {
        match self {
            EnvelopeFlags::NoFlags => 0,
            EnvelopeFlags::Compressed => 1,
            EnvelopeFlags::Encrypted => 2,
            EnvelopeFlags::ExpectsResponse => 4,
            EnvelopeFlags::IsError => 8,
        }
    }

    /// The bit this flag occupies in the header's flag byte.
    pub fn bit(self) -> (r: u8)
        ensures
            r == self.spec_bit(),
    {
        match self {
            EnvelopeFlags::NoFlags => 0,
            EnvelopeFlags::Compressed => 1,
            EnvelopeFlags::Encrypted => 2,
            EnvelopeFlags::ExpectsResponse => 4,
            EnvelopeFlags::IsError => 8,
        }
    }

    /// Check whether this flag is set in a flag byte.
    pub fn is_set(self, flags: u8) -> (r: bool)
        ensures
            r == (flags & self.spec_bit() != 0),
    {
        flags & self.bit() != 0
    }

    /// The flag byte holding every flag of a sequence.
    pub open spec fn spec_combine(flags: Seq<EnvelopeFlags>) -> u8
        decreases flags.len(),
    {
        if flags.len() == 0 {
            0
        } else {
            EnvelopeFlags::spec_combine(flags.drop_last()) | flags.last().spec_bit()
        }
    }

    /// Combine multiple flags into one flag byte.
    pub fn combine(flags: &[EnvelopeFlags]) -> (r: u8)
        ensures
            r == EnvelopeFlags::spec_combine(flags@),
    {
        let mut acc: u8 = 0;
        let mut i: usize = 0;
        while i < flags.len()
            invariant
                i <= flags@.len(),
                acc == EnvelopeFlags::spec_combine(flags@.take(i as int)),
            decreases flags@.len() - i,
        {
            proof {
                assert(flags@.take(i + 1).drop_last() == flags@.take(i as int));
                assert(flags@.take(i + 1).last() == flags@[i as int]);
            }
            acc = acc | flags[i].bit();
            i = i + 1;
        }
        proof {
            assert(flags@.take(flags@.len() as int) == flags@);
        }
        acc
    }
}

/// Header for envelope messages.
///
/// A fixed 12-byte header prefixes every host/guest message:
///
/// ```text
/// +-------+-------+-------+-------+
/// | magic (2B)    | ver   | flags |
/// +-------+-------+-------+-------+
/// | payload_len (4B)              |
/// +-------+-------+-------+-------+
/// | checksum (4B)                 |
/// +-------+-------+-------+-------+
/// | payload (variable)...         |
/// +-------+-------+-------+-------+
/// ```
#[derive(Clone, Copy, Debug)]
pub struct EnvelopeHeader {
    /// Magic bytes: 0x4149 ("AI").
    pub magic: u16,
    /// Protocol version.
    pub version: u8,
    /// Flags (compression, encryption, error marker).
    pub flags: u8,
    /// Length of the payload in bytes.
    pub payload_len: u32,
    /// CRC32 checksum of the payload.
    pub checksum: u32,
}

impl EnvelopeHeader {
    /// Size of the header in bytes.
    pub const SIZE: usize = 12;

    /// The header encoded in 12 little-endian bytes.
    pub open spec fn spec_from_bytes(bytes: Seq<u8>) -> EnvelopeHeader {
        EnvelopeHeader {
            magic: spec_u16_from_le_bytes(bytes.subrange(0, 2)),
            version: bytes[2],
            flags: bytes[3],
            payload_len: spec_u32_from_le_bytes(bytes.subrange(4, 8)),
            checksum: spec_u32_from_le_bytes(bytes.subrange(8, 12)),
        }
    }

    /// The 12 bytes this header serialises to, little-endian throughout.
    pub open spec fn spec_bytes(self) -> Seq<u8> {
        spec_u16_to_le_bytes(self.magic) + seq![self.version, self.flags]
            + spec_u32_to_le_bytes(self.payload_len) + spec_u32_to_le_bytes(self.checksum)
    }

    /// Whether the header passes validation: magic matches and the version is
    /// no newer than this implementation's.
    pub open spec fn spec_valid(self) -> bool {
        self.magic == MAGIC && self.version <= PROTOCOL_VERSION
    }

    /// Create a new header with the current magic and protocol version.
    pub fn new(payload_len: u32, checksum: u32, flags: u8) -> (r: EnvelopeHeader)
        ensures
            r == (EnvelopeHeader {
                magic: MAGIC,
                version: PROTOCOL_VERSION,
                flags,
                payload_len,
                checksum,
            }),
    {
        EnvelopeHeader { magic: MAGIC, version: PROTOCOL_VERSION, flags, payload_len, checksum }
    }

    /// Validate the header: the magic bytes must match and the version must
    /// not exceed the current protocol version.
    pub fn validate(&self) -> (r: Result<(), EnvelopeError>)
        ensures
            self.magic != MAGIC ==> r == Result::<(), EnvelopeError>::Err(
                EnvelopeError::InvalidMagic(self.magic),
            ),
            self.magic == MAGIC && self.version > PROTOCOL_VERSION ==> r == Result::<
                (),
                EnvelopeError,
            >::Err(EnvelopeError::UnsupportedVersion(self.version)),
            self.spec_valid() ==> r == Result::<(), EnvelopeError>::Ok(()),
    {
        if self.magic != MAGIC {
            return Err(EnvelopeError::InvalidMagic(self.magic));
        }
        if self.version > PROTOCOL_VERSION {
            return Err(EnvelopeError::UnsupportedVersion(self.version));
        }
        Ok(())
    }

    /// Serialise the header to its 12-byte wire form.
    pub fn to_bytes(&self) -> (r: Vec<u8>)
        ensures
            r@ == self.spec_bytes(),
            r@.len() == HEADER_SIZE,
    {
        let mut bytes = u16_to_le_bytes(self.magic);
        bytes.push(self.version);
        bytes.push(self.flags);
        let mut len_bytes = u32_to_le_bytes(self.payload_len);
        bytes.append(&mut len_bytes);
        let mut sum_bytes = u32_to_le_bytes(self.checksum);
        bytes.append(&mut sum_bytes);
        proof {
            assert(bytes@ =~= self.spec_bytes());
        }
        bytes
    }

    /// Parse a header from its 12-byte wire form.
    pub fn from_bytes(bytes: &[u8]) -> (r: EnvelopeHeader)
        requires
            bytes@.len() == HEADER_SIZE,
        ensures
            r == EnvelopeHeader::spec_from_bytes(bytes@),
    {
        let magic = u16_from_le_bytes(slice_subrange(bytes, 0, 2));
        let version = *vstd::slice::slice_index_get(bytes, 2);
        let flags = *vstd::slice::slice_index_get(bytes, 3);
        let payload_len = u32_from_le_bytes(slice_subrange(bytes, 4, 8));
        let checksum = u32_from_le_bytes(slice_subrange(bytes, 8, 12));
        EnvelopeHeader { magic, version, flags, payload_len, checksum }
    }

    /// Check whether the error flag is set.
    pub fn is_error(&self) -> (r: bool)
        ensures
            r == (self.flags & 8 != 0),
    {
        EnvelopeFlags::IsError.is_set(self.flags)
    }

    /// Check whether the compressed flag is set.
    pub fn is_compressed(&self) -> (r: bool)
        ensures
            r == (self.flags & 1 != 0),
    {
        EnvelopeFlags::Compressed.is_set(self.flags)
    }
}

/// Serialising a header and parsing the bytes back recovers every field.
pub proof fn lemma_header_bytes_round_trip(h: EnvelopeHeader)
    ensures
        EnvelopeHeader::spec_from_bytes(h.spec_bytes()) == h,
        h.spec_bytes().len() == HEADER_SIZE,
{
    lemma_auto_spec_u16_to_from_le_bytes();
    lemma_auto_spec_u32_to_from_le_bytes();
    assert(h.spec_bytes().subrange(0, 2) =~= spec_u16_to_le_bytes(h.magic));
    assert(h.spec_bytes().subrange(4, 8) =~= spec_u32_to_le_bytes(h.payload_len));
    assert(h.spec_bytes().subrange(8, 12) =~= spec_u32_to_le_bytes(h.checksum));
}

/// Errors that can occur when parsing envelope headers.
#[derive(Clone, Copy, Debug, PartialEq, Eq, Structural)]
pub enum EnvelopeError {
    /// Invalid magic bytes.
    InvalidMagic(u16),
    /// Unsupported protocol version.
    UnsupportedVersion(u8),
    /// Checksum mismatch.
    ChecksumMismatch {
        /// The checksum the header declared.
        expected: u32,
        /// The checksum computed over the payload.
        actual: u32,
    },
    /// Buffer too small.
    BufferTooSmall {
        /// The number of bytes that were needed.
        needed: usize,
        /// The number of bytes available.
        available: usize,
    },
    /// Payload too large.
    PayloadTooLarge(u32),
}

} // verus!
