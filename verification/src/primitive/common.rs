//! Byte-level helpers shared by the filters.
use vstd::prelude::*;

verus! {

/// Length in bytes of an address.
pub const PUBKEY_LEN: usize = 32;

/// Length in bytes of a `u32`.
pub const U32_LEN: usize = 4;

/// Length in bytes of a `u64`.
pub const U64_LEN: usize = 8;

/// Whether `data` starts with the 8-byte discriminator `d`.
pub open spec fn has_discriminator(d: Seq<u8>, data: Seq<u8>) -> bool {
    data.len() >= 8 && data.subrange(0, 8) == d
}

/// Tells whether the account data starts with the given 8-byte discriminator.
pub fn match_discriminator(d: &[u8; 8], data: &[u8]) -> (b: bool)
    ensures
        b == has_discriminator(d@, data@),
{
    if data.len() < 8 {
        return false;
    }
    let mut i: usize = 0;
    while i < 8
        invariant
            0 <= i <= 8,
            data@.len() >= 8,
            d@.len() == 8,
            forall|j: int| 0 <= j < i ==> data@[j] == d@[j],
        decreases 8 - i,
    {
        if data[i] != d[i] {
            assert(data@.subrange(0, 8)[i as int] != d@[i as int]);
            return false;
        }
        i = i + 1;
    }
    assert(data@.subrange(0, 8) =~= d@);
    true
}

/// The little-endian value of the 4 bytes of `data` at `off`.
pub open spec fn le_u32_at(data: Seq<u8>, off: int) -> int {
    data[off] + 256 * (data[off + 1] + 256 * (data[off + 2] + 256 * data[off + 3]))
}

/// The little-endian value of the 8 bytes of `data` at `off`.
pub open spec fn le_u64_at(data: Seq<u8>, off: int) -> int {
    le_u32_at(data, off) + 4294967296 * le_u32_at(data, off + 4)
}

/// Reads a little-endian `u32` from `data[off..off + 4]`.
pub fn read_u32_le(data: &[u8], off: usize) -> (v: u32)
    requires
        off + 4 <= data.len(),
    ensures
        v == le_u32_at(data@, off as int),
{
    let b0 = data[off] as u32;
    let b1 = data[off + 1] as u32;
    let b2 = data[off + 2] as u32;
    let b3 = data[off + 3] as u32;
    b0 + 256 * (b1 + 256 * (b2 + 256 * b3))
}

/// Reads a little-endian `u64` from `data[off..off + 8]`.
pub fn read_u64_le(data: &[u8], off: usize) -> (v: u64)
    requires
        off + 8 <= data.len(),
    ensures
        v == le_u64_at(data@, off as int),
{
    let lo = read_u32_le(data, off) as u64;
    let hi = read_u32_le(data, off + 4) as u64;
    lo + 4294967296 * hi
}

} // verus!
