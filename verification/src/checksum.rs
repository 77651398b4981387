//! Checksum computation for payload integrity.

use vstd::prelude::*;

verus! {

/// The IEEE-802.3 CRC32 of a byte sequence, as crc32fast computes it.
pub uninterp spec fn crc32_of(data: Seq<u8>) -> u32;

/// Compute the CRC32 checksum of the data.
///
/// Relies on crc32fast::hash: the IEEE CRC32 of the bytes, a function of the
/// bytes alone.
#[verifier::external_body]
pub fn compute_checksum(data: &[u8]) -> (r: u32)
    ensures
        r == crc32_of(data@),
{
    crc32fast::hash(data)
}

/// Check that the checksum of the data matches an expected value.
pub fn verify_checksum(data: &[u8], expected: u32) -> (r: bool)
    ensures
        r == (crc32_of(data@) == expected),
{
    compute_checksum(data) == expected
}

} // verus!
