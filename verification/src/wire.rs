//! Little-endian readings of byte sequences, shared by the call codec
//! and the accept-record decoder.

use vstd::prelude::*;

verus! {

/// The 16-bit little-endian value stored at offset `i` of `b`.
pub open spec fn word16(b: Seq<u8>, i: int) -> int {
    b[i] + 256 * b[i + 1]
}

/// The 32-bit little-endian value stored at offset `i` of `b`.
pub open spec fn word32(b: Seq<u8>, i: int) -> int {
    b[i] + 256 * b[i + 1] + 65536 * b[i + 2] + 16777216 * b[i + 3]
}

/// The signed (two's complement) reading of a 16-bit value.
pub open spec fn signed16(v: int) -> int {
    if v < 32768 {
        v
    } else {
        v - 65536
    }
}

/// The signed (two's complement) reading of a 32-bit value.
pub open spec fn signed32(v: int) -> int {
    if v < 2147483648 {
        v
    } else {
        v - 4294967296
    }
}

pub fn read_u16(b: &[u8], i: usize) -> (r: u16)
    requires
        i + 2 <= b@.len(),
    ensures
        r == word16(b@, i as int),
{
    (b[i] as u16) + 256 * (b[i + 1] as u16)
}

pub fn read_u32(b: &[u8], i: usize) -> (r: u32)
    requires
        i + 4 <= b@.len(),
    ensures
        r == word32(b@, i as int),
{
    (b[i] as u32) + 256 * (b[i + 1] as u32) + 65536 * (b[i + 2] as u32) + 16777216 * (b[i
        + 3] as u32)
}

/// The signed reading of the 16-bit value at offset `i`.
pub fn read_i16(b: &[u8], i: usize) -> (r: i16)
    requires
        i + 2 <= b@.len(),
    ensures
        r == signed16(word16(b@, i as int)),
{
    let v = read_u16(b, i);
    if v < 32768 {
        v as i16
    } else {
        let w: u16 = v - 32768;
        -32768i16 + (w as i16)
    }
}

/// The signed reading of the 32-bit value at offset `i`.
pub fn read_i32(b: &[u8], i: usize) -> (r: i32)
    requires
        i + 4 <= b@.len(),
    ensures
        r == signed32(word32(b@, i as int)),
{
    let v = read_u32(b, i);
    if v < 2147483648 {
        v as i32
    } else {
        let w: u32 = v - 2147483648;
        -2147483648i32 + (w as i32)
    }
}

/// Append the two little-endian bytes of `v` to `out`.
pub fn push_u16(out: &mut Vec<u8>, v: u16)
    ensures
        final(out)@ == old(out)@ + le16(v),
{
    out.push((v % 256) as u8);
    out.push((v / 256) as u8);
    proof {
        assert(final(out)@ =~= old(out)@ + le16(v));
    }
}

/// The two little-endian bytes of a 16-bit value.
pub open spec fn le16(v: u16) -> Seq<u8> {
    seq![(v % 256) as u8, (v / 256) as u8]
}

} // verus!
